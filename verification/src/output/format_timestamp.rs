//! Timestamps rendered as `ls -l` does: `Mon dd HH:MM` for recent times,
//! `Mon dd  YYYY` for older ones.

use vstd::prelude::*;
use vstd::utf8::{is_ascii_chars, is_ascii_chars_concat, is_ascii_chars_encode_utf8};

use chrono::{Datelike, TimeZone, Timelike};

use crate::config::Config;
use crate::output::display_cell::{Alignment, CellView, DisplayCell};
use crate::text::{
    decimal, digit_char, digit_to_char, lemma_decimal_ascii, lemma_decimal_len_le, lemma_decimal_len_pos, pow10, maybe_styled, push_decimal,
    signed_decimal, string_push,
};
use crate::theme::opt_string_view;
use crate::utils::{epoch_offset, system_time_now, systemtime_to_unix_timestamp, timestamp_from_offset};

verus! {

/// The calendar fields of a point in time, in the local time zone.
#[derive(Debug, Clone, Copy, PartialEq, Eq, Structural)]
pub struct DateParts {
    pub year: i32,
    /// Month, from 0 (January) to 11.
    pub month0: u32,
    /// Day of the month, from 0 to 30.
    pub day0: u32,
    /// Hour, from 0 to 23.
    pub hour: u32,
    /// Minute, from 0 to 59.
    pub minute: u32,
}

impl DateParts {
    /// Whether every field lies in its range.
    pub open spec fn in_range(self) -> bool {
        &&& self.month0 < 12
        &&& self.day0 < 31
        &&& self.hour < 24
        &&& self.minute < 60
    }
}

/// The number of days from 1970-01-01 to the given day of the proleptic
/// Gregorian calendar (`month` from 1 to 12, `day` from 1), negative for
/// days before.
pub open spec fn days_from_civil(year: int, month: int, day: int) -> int {
    let y = if month <= 2 { year - 1 } else { year };
    let era = y / 400;
    let yoe = y % 400;
    let mp = if month > 2 { month - 3 } else { month + 9 };
    let doy = (153 * mp + 2) / 5 + day - 1;
    let doe = yoe * 365 + yoe / 4 - yoe / 100 + doy;
    era * 146097 + doe - 719468
}

/// The seconds from 1970-01-01 00:00 to the minute the date parts name,
/// read as if they were UTC.
pub open spec fn minute_seconds(d: DateParts) -> int {
    days_from_civil(d.year as int, d.month0 + 1, d.day0 + 1) * 86400 + d.hour * 3600 + d.minute * 60
}

/// Whether `d` is a local time of `timestamp`: the time shifted by a time
/// zone offset of less than a day, cut to the minute.
pub open spec fn local_time_of(d: DateParts, timestamp: int) -> bool {
    timestamp - 86460 < minute_seconds(d) < timestamp + 86400
}

/// Whether chrono can represent `timestamp`: its day lies between
/// -262143-01-01 and 262142-12-31.
pub open spec fn chrono_in_range(timestamp: int) -> bool {
    days_from_civil(-262143, 1, 1) <= timestamp / 86400 <= days_from_civil(262142, 12, 31)
}

/// `chrono::Local.timestamp_opt(timestamp, 0)` and, for a single local
/// time, its `year`, `month0`, `day0`, `hour` and `minute`. chrono gives
/// `None` exactly for a timestamp out of its range and a single local time
/// otherwise: the UTC time shifted by the local offset, which as a
/// `FixedOffset` is less than a day either way. The fields lie in the
/// ranges chrono documents. Which offset applies depends on the machine's
/// time zone, so no more is claimed of the fields.
#[verifier::external_body]
fn local_date_parts(timestamp: i64) -> (r: Option<DateParts>)
    ensures
        r is Some <==> chrono_in_range(timestamp as int),
        r matches Some(d) ==> d.in_range() && local_time_of(d, timestamp as int),
{
    match chrono::Local.timestamp_opt(timestamp, 0) {
        chrono::LocalResult::Single(datetime) => Some(
            DateParts {
                year: datetime.year(),
                month0: datetime.month0(),
                day0: datetime.day0(),
                hour: datetime.hour(),
                minute: datetime.minute(),
            },
        ),
        _ => None,
    }
}

/// The abbreviated English name of month `month0` (0 is January).
pub open spec fn abmon(month0: u32) -> Seq<char> {
    if month0 == 0 {
        seq!['J', 'a', 'n']
    } else if month0 == 1 {
        seq!['F', 'e', 'b']
    } else if month0 == 2 {
        seq!['M', 'a', 'r']
    } else if month0 == 3 {
        seq!['A', 'p', 'r']
    } else if month0 == 4 {
        seq!['M', 'a', 'y']
    } else if month0 == 5 {
        seq!['J', 'u', 'n']
    } else if month0 == 6 {
        seq!['J', 'u', 'l']
    } else if month0 == 7 {
        seq!['A', 'u', 'g']
    } else if month0 == 8 {
        seq!['S', 'e', 'p']
    } else if month0 == 9 {
        seq!['O', 'c', 't']
    } else if month0 == 10 {
        seq!['N', 'o', 'v']
    } else {
        seq!['D', 'e', 'c']
    }
}

/// A number below 100 as two digits, with a leading zero.
pub open spec fn two_digits(n: nat) -> Seq<char> {
    seq![digit_char(n / 10), digit_char(n % 10)]
}

/// The day of the month (`day0 + 1`) right-aligned in two columns.
pub open spec fn day_text(day0: u32) -> Seq<char> {
    if day0 + 1 < 10 {
        seq![' ', digit_char((day0 + 1) as nat)]
    } else {
        two_digits((day0 + 1) as nat)
    }
}

/// `n` zero digits.
pub open spec fn zeros(n: nat) -> Seq<char> {
    Seq::new(n, |i: int| '0')
}

/// A space and the year, zero-padded to four characters (the minus sign of
/// a negative year counts as one of them).
pub open spec fn year_text(year: i32) -> Seq<char> {
    let digits = signed_decimal(year as int);
    let padding: nat = if digits.len() < 4 {
        (4 - digits.len()) as nat
    } else {
        0
    };
    seq![' '] + zeros(padding) + digits
}

/// `date "+%b %e %H:%M"`: month, day, hour and minute.
pub open spec fn recent_text(d: DateParts) -> Seq<char> {
    abmon(d.month0) + seq![' '] + day_text(d.day0) + seq![' '] + two_digits(d.hour as nat) + seq![
        ':',
    ] + two_digits(d.minute as nat)
}

/// `date "+%b %e  %Y"`: month, day and year.
pub open spec fn old_text(d: DateParts) -> Seq<char> {
    abmon(d.month0) + seq![' '] + day_text(d.day0) + seq![' '] + year_text(d.year)
}

/// The text written for a timestamp: the recent form when it is newer than
/// the six-months threshold, the old form otherwise.
pub open spec fn timestamp_text(d: DateParts, recent: bool) -> Seq<char> {
    if recent {
        recent_text(d)
    } else {
        old_text(d)
    }
}

/// The cell of a timestamp whose local time is `d`.
pub open spec fn timestamp_cell_view(d: DateParts, recent: bool, style: Option<Seq<char>>) -> CellView {
    (maybe_styled(style, timestamp_text(d, recent)), timestamp_text(d, recent).len(), Alignment::Left)
}

/// Whether `cell` is the timestamp column for `timestamp`: the form
/// (recent or old) of a local time of the timestamp, in the timestamp
/// style, when chrono can represent it; the error cell `?` otherwise.
pub open spec fn timestamp_cell_of(cell: CellView, timestamp: i64, recent: bool, style: Option<Seq<char>>) -> bool {
    if chrono_in_range(timestamp as int) {
        exists|d: DateParts|
            d.in_range() && local_time_of(d, timestamp as int) && cell == #[trigger] timestamp_cell_view(
                d,
                recent,
                style,
            )
    } else {
        cell == (seq!['?'], 1nat, Alignment::Left)
    }
}

/// The timestamp column shows the timestamp's own date: for a timestamp
/// chrono can represent, the cell is not the `?` cell (it is at least
/// twelve columns wide) and the day it shows is the timestamp's UTC day,
/// give or take one for the time zone, at an hour and minute of a day;
/// otherwise it is the `?` cell.
pub proof fn law_timestamp_cell_shows_its_date(
    cell: CellView,
    timestamp: i64,
    recent: bool,
    style: Option<Seq<char>>,
)
    requires
        timestamp_cell_of(cell, timestamp, recent, style),
    ensures
        !chrono_in_range(timestamp as int) ==> cell == (seq!['?'], 1nat, Alignment::Left),
        chrono_in_range(timestamp as int) ==> cell.1 >= 12 && exists|d: DateParts|
            #![trigger timestamp_cell_view(d, recent, style)]
            cell == timestamp_cell_view(d, recent, style) && timestamp / 86400 - 1 <= days_from_civil(
                d.year as int,
                d.month0 + 1,
                d.day0 + 1,
            ) <= timestamp / 86400 + 1,
{
    if chrono_in_range(timestamp as int) {
        let d = choose|d: DateParts|
            d.in_range() && local_time_of(d, timestamp as int) && cell == #[trigger] timestamp_cell_view(
                d,
                recent,
                style,
            );
        lemma_timestamp_text_min_width(d, recent);
        let days = days_from_civil(d.year as int, d.month0 + 1, d.day0 + 1);
        let t = timestamp as int;
        let hm = d.hour * 3600 + d.minute * 60;
        assert(0 <= hm <= 86340);
        assert(t - 86460 < days * 86400 + hm < t + 86400);
        assert(t / 86400 - 1 <= days <= t / 86400 + 1) by (nonlinear_arith)
            requires
                t - 86460 < days * 86400 + hm < t + 86400,
                0 <= hm <= 86340,
        {
            let q = t / 86400;
            assert(t == q * 86400 + t % 86400);
            assert(0 <= t % 86400 < 86400);
        }
    }
}

/// Either form of a timestamp is at least twelve characters long.
proof fn lemma_timestamp_text_min_width(d: DateParts, recent: bool)
    requires
        d.in_range(),
    ensures
        timestamp_text(d, recent).len() >= 12,
        timestamp_cell_view(d, recent, None).1 >= 12,
{
    lemma_signed_decimal_len_pos(d.year as int);
    assert(abmon(d.month0).len() == 3);
    assert(day_text(d.day0).len() == 2);
    assert(year_text(d.year).len() >= 5);
}

proof fn lemma_signed_decimal_len_pos(i: int)
    ensures
        signed_decimal(i).len() >= 1,
{
    if i < 0 {
        lemma_decimal_len_pos((-i) as nat);
    } else {
        lemma_decimal_len_pos(i as nat);
    }
}

/// Both forms of a timestamp are twelve characters wide for a year of at
/// most four digits, so a timestamp column lines up whichever form each
/// entry takes.
pub proof fn lemma_timestamp_text_width(d: DateParts, recent: bool)
    requires
        d.in_range(),
        0 <= d.year <= 9999,
    ensures
        timestamp_text(d, recent).len() == 12,
{
    reveal_with_fuel(pow10, 5);
    lemma_decimal_len_le(d.year as nat, 4);
    lemma_decimal_len_pos(d.year as nat);
    assert(abmon(d.month0).len() == 3);
    assert(day_text(d.day0).len() == 2);
    assert(year_text(d.year).len() == 5);
}

/// The seconds in six months of thirty days.
pub const SIX_MONTHS_IN_SECS: i64 = 15552000;

/// Text for a timestamp, built up piece by piece.
pub struct TimestampBuffer {
    text: String,
}

impl View for TimestampBuffer {
    type V = Seq<char>;

    closed spec fn view(&self) -> Seq<char> {
        self.text@
    }
}

proof fn lemma_year_text_ascii(year: i32)
    ensures
        is_ascii_chars(year_text(year)),
        year_text(year).len() <= 12,
{
    let digits = signed_decimal(year as int);
    assert(crate::text::pow10(10) == 10000000000) by {
        reveal_with_fuel(crate::text::pow10, 11);
    }
    if year < 0 {
        lemma_decimal_ascii((-(year as int)) as nat);
        crate::text::lemma_decimal_len_le((-(year as int)) as nat, 10);
        is_ascii_chars_concat(digits, seq!['-'], decimal((-(year as int)) as nat));
    } else {
        lemma_decimal_ascii(year as nat);
        crate::text::lemma_decimal_len_le(year as nat, 10);
    }
    let padding: nat = if digits.len() < 4 {
        (4 - digits.len()) as nat
    } else {
        0
    };
    is_ascii_chars_concat(seq![' '] + zeros(padding), seq![' '], zeros(padding));
    is_ascii_chars_concat(year_text(year), seq![' '] + zeros(padding), digits);
}

proof fn lemma_timestamp_text_ascii(d: DateParts, recent: bool)
    requires
        d.in_range(),
    ensures
        is_ascii_chars(timestamp_text(d, recent)),
        timestamp_text(d, recent).len() <= 30,
{
    let head = abmon(d.month0) + seq![' '] + day_text(d.day0) + seq![' '];
    assert(is_ascii_chars(head));
    if recent {
        let tail = two_digits(d.hour as nat) + seq![':'] + two_digits(d.minute as nat);
        assert(is_ascii_chars(tail));
        is_ascii_chars_concat(head + tail, head, tail);
        assert(recent_text(d) =~= head + tail);
    } else {
        lemma_year_text_ascii(d.year);
        is_ascii_chars_concat(head + year_text(d.year), head, year_text(d.year));
        assert(old_text(d) =~= head + year_text(d.year));
    }
}

fn push_abmon(s: &mut String, month0: u32)
    requires
        month0 < 12,
    ensures
        final(s)@ == old(s)@ + abmon(month0),
{
    let (a, b, c) = if month0 == 0 {
        ('J', 'a', 'n')
    } else if month0 == 1 {
        ('F', 'e', 'b')
    } else if month0 == 2 {
        ('M', 'a', 'r')
    } else if month0 == 3 {
        ('A', 'p', 'r')
    } else if month0 == 4 {
        ('M', 'a', 'y')
    } else if month0 == 5 {
        ('J', 'u', 'n')
    } else if month0 == 6 {
        ('J', 'u', 'l')
    } else if month0 == 7 {
        ('A', 'u', 'g')
    } else if month0 == 8 {
        ('S', 'e', 'p')
    } else if month0 == 9 {
        ('O', 'c', 't')
    } else if month0 == 10 {
        ('N', 'o', 'v')
    } else {
        ('D', 'e', 'c')
    };
    string_push(s, a);
    string_push(s, b);
    string_push(s, c);
    proof {
        assert(s@ =~= old(s)@ + abmon(month0));
    }
}

fn push_two_digits(s: &mut String, n: u32)
    requires
        n < 100,
    ensures
        final(s)@ == old(s)@ + two_digits(n as nat),
{
    string_push(s, digit_to_char((n / 10) as u8));
    string_push(s, digit_to_char((n % 10) as u8));
    proof {
        assert(s@ =~= old(s)@ + two_digits(n as nat));
    }
}

fn push_day(s: &mut String, day0: u32)
    requires
        day0 < 31,
    ensures
        final(s)@ == old(s)@ + day_text(day0),
{
    let day = day0 + 1;
    if day < 10 {
        string_push(s, ' ');
        string_push(s, digit_to_char(day as u8));
        proof {
            assert(s@ =~= old(s)@ + day_text(day0));
        }
    } else {
        push_two_digits(s, day);
    }
}

impl TimestampBuffer {
    /// An empty buffer.
    pub fn new() -> (r: Self)
        ensures
            r@ == Seq::<char>::empty(),
    {
        TimestampBuffer { text: String::new() }
    }

    /// The text written so far.
    pub fn as_str(&self) -> (r: &str)
        ensures
            r@ == self@,
    {
        self.text.as_str()
    }

    /// Writes `date "+%b %e %H:%M"` of `datetime` into this buffer, in
    /// place of what it held.
    pub fn format_recent(&mut self, datetime: &DateParts)
        requires
            datetime.in_range(),
        ensures
            final(self)@ == recent_text(*datetime),
    {
        let mut text = String::new();
        push_abmon(&mut text, datetime.month0);
        string_push(&mut text, ' ');
        push_day(&mut text, datetime.day0);
        string_push(&mut text, ' ');
        push_two_digits(&mut text, datetime.hour);
        string_push(&mut text, ':');
        push_two_digits(&mut text, datetime.minute);
        proof {
            assert(text@ =~= recent_text(*datetime));
        }
        self.text = text;
    }

    /// Writes `date "+%b %e  %Y"` of `datetime` into this buffer, in place
    /// of what it held.
    pub fn format_old(&mut self, datetime: &DateParts)
        requires
            datetime.in_range(),
        ensures
            final(self)@ == old_text(*datetime),
    {
        let mut text = String::new();
        push_abmon(&mut text, datetime.month0);
        string_push(&mut text, ' ');
        push_day(&mut text, datetime.day0);
        string_push(&mut text, ' ');
        self.text = text;
        self.push_formatted_year(datetime.year);
        proof {
            assert(self@ =~= old_text(*datetime));
        }
    }

    /// Appends a space and `year`, zero-padded to four characters.
    pub fn push_formatted_year(&mut self, year: i32)
        ensures
            final(self)@ == old(self)@ + year_text(year),
    {
        let mut digits = String::new();
        if year < 0 {
            string_push(&mut digits, '-');
            let magnitude: u128 = if year == i32::MIN {
                2147483648
            } else {
                (-year) as u128
            };
            push_decimal(&mut digits, magnitude);
        } else {
            push_decimal(&mut digits, year as u128);
        }
        proof {
            assert(digits@ =~= signed_decimal(year as int));
        }
        let year_len = digits.as_str().unicode_len();
        string_push(&mut self.text, ' ');
        let ghost after_space = self.text@;
        let mut i: usize = year_len;
        while i < 4
            invariant
                year_len <= i <= 4 || (year_len > 4 && i == year_len),
                self.text@ == after_space + zeros((if i < year_len { 0 } else { i - year_len }) as nat),
            decreases 4 - i,
        {
            string_push(&mut self.text, '0');
            i = i + 1;
            proof {
                assert(self.text@ =~= after_space + zeros((i - year_len) as nat));
            }
        }
        crate::text::string_push_str(&mut self.text, digits.as_str());
        proof {
            let padding: nat = if year_len < 4 {
                (4 - year_len) as nat
            } else {
                0
            };
            assert(self.text@ =~= old(self)@ + year_text(year));
        }
    }
}

/// The six-months threshold for a clock reading of `now`: `now` minus six
/// months of thirty days, with wrap-around.
pub fn six_months_before(now: i64) -> (r: i64)
    ensures
        r == now.wrapping_sub(SIX_MONTHS_IN_SECS),
{
    now.wrapping_sub(SIX_MONTHS_IN_SECS)
}

/// The Unix timestamp of six months (of thirty days) before now. Any clock
/// reading may come back; the result is that reading minus six months.
pub fn get_six_months_ago_timestamp() -> (r: i64)
    ensures
        exists|now: std::time::SystemTime| r == timestamp_from_offset(epoch_offset(now)).wrapping_sub(
            SIX_MONTHS_IN_SECS,
        ),
{
    let now = system_time_now();
    six_months_before(systemtime_to_unix_timestamp(Ok(now)).unwrap())
}

/// The cell for a timestamp whose local time lookup gave `datetime`: the
/// error cell when there was none, else the recent or old form in the
/// timestamp style, left-aligned.
pub fn format_date_parts(datetime: Option<DateParts>, recent: bool, config: &Config) -> (r: DisplayCell)
    requires
        datetime matches Some(d) ==> d.in_range(),
    ensures
        datetime is None ==> r@ == (seq!['?'], 1nat, Alignment::Left),
        datetime matches Some(d) ==> r@ == timestamp_cell_view(d, recent, opt_string_view(config.theme.timestamp)),
{
    match datetime {
        Some(d) => {
            let mut buffer = TimestampBuffer::new();
            if recent {
                buffer.format_recent(&d);
            } else {
                buffer.format_old(&d);
            }
            proof {
                lemma_timestamp_text_ascii(d, recent);
                is_ascii_chars_encode_utf8(buffer@);
            }
            DisplayCell::from_ascii_str_with_style(buffer.as_str(), config.theme.timestamp_style())
        },
        None => DisplayCell::error_cell(Alignment::Left),
    }
}

/// The timestamp column: `timestamp` in its local time, in the recent form
/// when it is newer than `six_months_ago_timestamp` and in the old form
/// otherwise; the error cell `?` when the timestamp has no local time.
pub fn format_timestamp(timestamp: i64, six_months_ago_timestamp: i64, config: &Config) -> (r: DisplayCell)
    ensures
        timestamp_cell_of(r@, timestamp, timestamp > six_months_ago_timestamp, opt_string_view(config.theme.timestamp)),
{
    let datetime = local_date_parts(timestamp);
    format_date_parts(datetime, timestamp > six_months_ago_timestamp, config)
}

} // verus!
