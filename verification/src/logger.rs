//! Diagnostics: which messages `RUST_LOG` lets through, and how a message
//! is written to standard error, with or without colours.

use vstd::prelude::*;

use crate::text::{str_eq, string_push, string_push_str};

verus! {

/// The severity of a message, most severe first.
#[derive(Debug, Clone, Copy, PartialEq, Eq, Structural)]
pub enum LogLevel {
    Error,
    Warn,
    Info,
    Debug,
    Trace,
}

/// The messages let through: none, or those at least as severe as a level.
#[derive(Debug, Clone, Copy, PartialEq, Eq, Structural)]
pub enum LogFilter {
    Off,
    Error,
    Warn,
    Info,
    Debug,
    Trace,
}

/// The filter that the value of `RUST_LOG` asks for: one of the five level
/// words in lower case selects that level; anything else, or no value,
/// turns messages off.
pub open spec fn filter_for(value: Option<Seq<char>>) -> LogFilter {
    match value {
        Some(v) => if v == seq!['e', 'r', 'r', 'o', 'r'] {
            LogFilter::Error
        } else if v == seq!['w', 'a', 'r', 'n'] {
            LogFilter::Warn
        } else if v == seq!['i', 'n', 'f', 'o'] {
            LogFilter::Info
        } else if v == seq!['d', 'e', 'b', 'u', 'g'] {
            LogFilter::Debug
        } else if v == seq!['t', 'r', 'a', 'c', 'e'] {
            LogFilter::Trace
        } else {
            LogFilter::Off
        },
        None => LogFilter::Off,
    }
}

/// The filter for the value of `RUST_LOG`, if it is set.
pub fn level_filter(value: Option<&str>) -> (r: LogFilter)
    ensures
        r == filter_for(
            match value {
                Some(v) => Some(v@),
                None => None,
            },
        ),
{
    proof {
        reveal_strlit("error");
        reveal_strlit("warn");
        reveal_strlit("info");
        reveal_strlit("debug");
        reveal_strlit("trace");
        assert("error"@ =~= seq!['e', 'r', 'r', 'o', 'r']);
        assert("warn"@ =~= seq!['w', 'a', 'r', 'n']);
        assert("info"@ =~= seq!['i', 'n', 'f', 'o']);
        assert("debug"@ =~= seq!['d', 'e', 'b', 'u', 'g']);
        assert("trace"@ =~= seq!['t', 'r', 'a', 'c', 'e']);
    }
    match value {
        Some(v) => if str_eq(v, "error") {
            LogFilter::Error
        } else if str_eq(v, "warn") {
            LogFilter::Warn
        } else if str_eq(v, "info") {
            LogFilter::Info
        } else if str_eq(v, "debug") {
            LogFilter::Debug
        } else if str_eq(v, "trace") {
            LogFilter::Trace
        } else {
            LogFilter::Off
        },
        None => LogFilter::Off,
    }
}

/// The name of a level, as the `log` crate writes it.
pub open spec fn level_name(level: LogLevel) -> Seq<char> {
    match level {
        LogLevel::Error => seq!['E', 'R', 'R', 'O', 'R'],
        LogLevel::Warn => seq!['W', 'A', 'R', 'N'],
        LogLevel::Info => seq!['I', 'N', 'F', 'O'],
        LogLevel::Debug => seq!['D', 'E', 'B', 'U', 'G'],
        LogLevel::Trace => seq!['T', 'R', 'A', 'C', 'E'],
    }
}

/// `log::Level::as_str`: the level's name, `ERROR`, `WARN`, `INFO`, `DEBUG`
/// or `TRACE` (the crate's table of level names).
#[verifier::external_body]
fn level_as_str(level: LogLevel) -> (r: &'static str)
    ensures
        r@ == level_name(level),
{
    let level = match level {
        LogLevel::Error => log::Level::Error,
        LogLevel::Warn => log::Level::Warn,
        LogLevel::Info => log::Level::Info,
        LogLevel::Debug => log::Level::Debug,
        LogLevel::Trace => log::Level::Trace,
    };
    level.as_str()
}

/// The colour a level's name is written in.
pub open spec fn level_color(level: LogLevel) -> Seq<char> {
    match level {
        LogLevel::Error => seq!['3', '1'],
        LogLevel::Warn => seq!['3', '3'],
        LogLevel::Info => seq!['3', '2'],
        LogLevel::Debug => seq!['3', '4'],
        LogLevel::Trace => seq!['3', '6'],
    }
}

/// `ESC [ 9 0 m`, the grey of the brackets.
pub open spec fn grey() -> Seq<char> {
    seq!['\u{1b}', '[', '9', '0', 'm']
}

/// `ESC [ 0 m`.
pub open spec fn reset() -> Seq<char> {
    seq!['\u{1b}', '[', '0', 'm']
}

/// The line written for a message (without its newline): with colours,
/// grey brackets around the coloured level name and the target; without,
/// `[LEVEL target] message`.
pub open spec fn log_line_text(level: LogLevel, target: Seq<char>, message: Seq<char>, colored: bool) -> Seq<char> {
    if colored {
        grey() + seq!['['] + reset() + seq!['\u{1b}', '['] + level_color(level) + seq!['m'] + level_name(level)
            + reset() + seq![' '] + target + grey() + seq![']'] + reset() + seq![' '] + message
    } else {
        seq!['['] + level_name(level) + seq![' '] + target + seq![']', ' '] + message
    }
}

fn push_grey(s: &mut String)
    ensures
        final(s)@ == old(s)@ + grey(),
{
    string_push(s, '\u{1b}');
    string_push(s, '[');
    string_push(s, '9');
    string_push(s, '0');
    string_push(s, 'm');
    proof {
        assert(s@ =~= old(s)@ + grey());
    }
}

fn push_reset(s: &mut String)
    ensures
        final(s)@ == old(s)@ + reset(),
{
    string_push(s, '\u{1b}');
    string_push(s, '[');
    string_push(s, '0');
    string_push(s, 'm');
    proof {
        assert(s@ =~= old(s)@ + reset());
    }
}

fn push_level_color(s: &mut String, level: LogLevel)
    ensures
        final(s)@ == old(s)@ + level_color(level),
{
    string_push(s, '3');
    let digit = match level {
        LogLevel::Error => '1',
        LogLevel::Warn => '3',
        LogLevel::Info => '2',
        LogLevel::Debug => '4',
        LogLevel::Trace => '6',
    };
    string_push(s, digit);
    proof {
        assert(s@ =~= old(s)@ + level_color(level));
    }
}

/// The line written to standard error for a message of `level` from
/// `target`, without its newline.
pub fn log_line(level: LogLevel, target: &str, message: &str, colored: bool) -> (r: String)
    ensures
        r@ == log_line_text(level, target@, message@, colored),
{
    let mut line = String::new();
    let name = level_as_str(level);
    if colored {
        push_grey(&mut line);
        string_push(&mut line, '[');
        push_reset(&mut line);
        string_push(&mut line, '\u{1b}');
        string_push(&mut line, '[');
        push_level_color(&mut line, level);
        string_push(&mut line, 'm');
        string_push_str(&mut line, name);
        push_reset(&mut line);
        string_push(&mut line, ' ');
        string_push_str(&mut line, target);
        push_grey(&mut line);
        string_push(&mut line, ']');
        push_reset(&mut line);
        string_push(&mut line, ' ');
        string_push_str(&mut line, message);
    } else {
        string_push(&mut line, '[');
        string_push_str(&mut line, name);
        string_push(&mut line, ' ');
        string_push_str(&mut line, target);
        string_push(&mut line, ']');
        string_push(&mut line, ' ');
        string_push_str(&mut line, message);
    }
    proof {
        assert(line@ =~= log_line_text(level, target@, message@, colored));
    }
    line
}

} // verus!
