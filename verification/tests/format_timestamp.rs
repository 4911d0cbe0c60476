use std::time::{Duration, SystemTime};

use chrono::{DateTime, Datelike, Local, Timelike};

use nls_ls::config::Config;
use nls_ls::output::display_cell::{Alignment, DisplayCell};
use nls_ls::output::format_timestamp::{
    format_date_parts, format_timestamp, get_six_months_ago_timestamp, six_months_before,
    DateParts, TimestampBuffer,
};
use nls_ls::theme::ThemeConfig;

const SIX_MONTHS_IN_SECS: i64 = 60 * 60 * 24 * 30 * 6;

fn date_parts(datetime: &DateTime<Local>) -> DateParts {
    DateParts {
        year: datetime.year(),
        month0: datetime.month0(),
        day0: datetime.day0(),
        hour: datetime.hour(),
        minute: datetime.minute(),
    }
}

fn default_config() -> Config {
    Config::default()
}

fn colored_config() -> Config {
    let mut config = Config::default();
    config.theme = ThemeConfig::with_default_colors();
    config
}

#[test]
fn test_format_timestamp_recent() {
    let datetime = Local::now();
    let timestamp = datetime.timestamp();
    let config = default_config();

    let correct_timestamp_format = datetime.format("%b %e %H:%M").to_string();
    let correct_timestamp_width = correct_timestamp_format.len();
    let correct_timestamp_cell = DisplayCell {
        contents: correct_timestamp_format,
        width: correct_timestamp_width,
        alignment: Alignment::Left,
    };

    assert_eq!(
        format_timestamp(timestamp, get_six_months_ago_timestamp(), &config),
        correct_timestamp_cell
    );
}

#[test]
fn test_format_timestamp_recent_with_style() {
    let datetime = Local::now();
    let timestamp = datetime.timestamp();
    let config = colored_config();

    let correct_timestamp_format = datetime.format("%b %e %H:%M").to_string();
    let correct_timestamp_width = correct_timestamp_format.len();
    let timestamp_style = config.theme.timestamp_style().unwrap();
    let correct_timestamp_cell = DisplayCell {
        contents: format!("\x1b[{}m{}\x1b[0m", timestamp_style, correct_timestamp_format),
        width: correct_timestamp_width,
        alignment: Alignment::Left,
    };

    assert_eq!(
        format_timestamp(timestamp, get_six_months_ago_timestamp(), &config),
        correct_timestamp_cell
    );
}

#[test]
fn test_format_timestamp_old() {
    let six_months = Duration::from_secs(SIX_MONTHS_IN_SECS as u64);
    let datetime: DateTime<Local> = DateTime::from(SystemTime::now() - six_months);
    let timestamp = datetime.timestamp();
    let config = default_config();

    let correct_timestamp_format = datetime.format("%b %e  %Y").to_string();
    let correct_timestamp_width = correct_timestamp_format.len();
    let correct_timestamp_cell = DisplayCell {
        contents: correct_timestamp_format,
        width: correct_timestamp_width,
        alignment: Alignment::Left,
    };

    assert_eq!(
        format_timestamp(timestamp, get_six_months_ago_timestamp(), &config),
        correct_timestamp_cell
    );
}

#[test]
fn test_format_timestamp_old_with_style() {
    let six_months = Duration::from_secs(SIX_MONTHS_IN_SECS as u64);
    let datetime: DateTime<Local> = DateTime::from(SystemTime::now() - six_months);
    let timestamp = datetime.timestamp();
    let config = colored_config();

    let correct_timestamp_format = datetime.format("%b %e  %Y").to_string();
    let correct_timestamp_width = correct_timestamp_format.len();
    let timestamp_style = config.theme.timestamp_style().unwrap();
    let correct_timestamp_cell = DisplayCell {
        contents: format!("\x1b[{}m{}\x1b[0m", timestamp_style, correct_timestamp_format),
        width: correct_timestamp_width,
        alignment: Alignment::Left,
    };

    assert_eq!(
        format_timestamp(timestamp, get_six_months_ago_timestamp(), &config),
        correct_timestamp_cell
    );
}

#[test]
fn test_format_timestamp_invalid() {
    let config = default_config();
    let correct_timestamp_cell = DisplayCell {
        contents: String::from("?"),
        width: 1,
        alignment: Alignment::Left,
    };

    assert_eq!(
        format_timestamp(i64::MAX, get_six_months_ago_timestamp(), &config),
        correct_timestamp_cell
    );
}

#[test]
fn test_timestamp_buffer_format_recent() {
    let datetime = Local::now();
    let mut buffer = TimestampBuffer::new();
    buffer.format_recent(&date_parts(&datetime));

    assert_eq!(buffer.as_str(), datetime.format("%b %e %H:%M").to_string());
}

#[test]
fn test_timestamp_buffer_format_old() {
    let datetime = Local::now();
    let mut buffer = TimestampBuffer::new();
    buffer.format_old(&date_parts(&datetime));

    assert_eq!(buffer.as_str(), datetime.format("%b %e  %Y").to_string());
}

#[test]
fn test_timestamp_buffer_push_formatted_year_four_digits() {
    let mut buffer = TimestampBuffer::new();
    buffer.push_formatted_year(2024);

    assert_eq!(buffer.as_str(), " 2024");
}

#[test]
fn test_timestamp_buffer_push_formatted_year_less_than_four_digits() {
    let mut buffer = TimestampBuffer::new();
    buffer.push_formatted_year(202);

    assert_eq!(buffer.as_str(), " 0202");
}

#[test]
fn test_timestamp_buffer_push_formatted_year_more_than_four_digits() {
    let mut buffer = TimestampBuffer::new();
    buffer.push_formatted_year(20245);

    assert_eq!(buffer.as_str(), " 20245");
}

#[test]
fn test_get_six_months_ago_timestamp() {
    let six_months = Duration::from_secs(SIX_MONTHS_IN_SECS as u64);
    let datetime = Local::now() - six_months;

    assert_eq!(get_six_months_ago_timestamp(), datetime.timestamp());
}

#[test]
fn test_six_months_before_exact() {
    assert_eq!(six_months_before(1_700_000_000), 1_700_000_000 - 15_552_000);
    assert_eq!(six_months_before(i64::MIN), i64::MIN.wrapping_sub(15_552_000));
}

#[test]
fn test_format_date_parts_fixed_values() {
    let config = default_config();
    let date = DateParts { year: 2023, month0: 0, day0: 4, hour: 9, minute: 7 };
    let recent = format_date_parts(Some(date), true, &config);
    assert_eq!(recent.contents, "Jan  5 09:07");
    assert_eq!(recent.width, 12);
    let old = format_date_parts(Some(date), false, &config);
    assert_eq!(old.contents, "Jan  5  2023");
    let late = DateParts { year: 1999, month0: 11, day0: 30, hour: 23, minute: 59 };
    assert_eq!(format_date_parts(Some(late), true, &config).contents, "Dec 31 23:59");
    assert_eq!(format_date_parts(None, true, &config), DisplayCell::error_cell(Alignment::Left));
}
