//! Command-line arguments: each option's effect on the configuration, the
//! messages of refused arguments, and the settings derived at start-up.

use vstd::prelude::*;

use lexopt::ValueExt;

use crate::config::{
    default_config_view, AllocatedSizeBlocks, Config, ConfigView, IndicatorStyle, ModeFormat,
    OutputFormat, SizeFormat, SortingOrder, TimestampUsed,
};
use crate::ls_colors::{parse_spec, LsColors, DEFAULT_LS_COLORS};
use crate::text::{str_eq, string_push, string_push_str};
use crate::theme::{IconTheme, ThemeConfig};

verus! {

#[verifier::external_type_specification]
#[verifier::external_body]
pub struct ExParser(lexopt::Parser);

#[verifier::external_type_specification]
#[verifier::external_body]
pub struct ExPathBuf(std::path::PathBuf);

/// One argument as the parser splits the command line.
pub enum CliArg {
    /// A short option such as `-l`.
    Short(char),
    /// A long option such as `--all`, without its dashes.
    Long(String),
    /// A positional argument: a path to list.
    Value(String),
}

/// An argument, in the abstract.
pub enum ArgToken {
    Short(char),
    Long(Seq<char>),
    Value(Seq<char>),
}

impl View for CliArg {
    type V = ArgToken;

    open spec fn view(&self) -> ArgToken {
        match self {
            CliArg::Short(c) => ArgToken::Short(*c),
            CliArg::Long(name) => ArgToken::Long(name@),
            CliArg::Value(value) => ArgToken::Value(value@),
        }
    }
}

/// What an option needs from the parser after it.
#[derive(Debug, Clone, Copy, PartialEq, Eq, Structural)]
pub enum InputKind {
    Nothing,
    /// A value attached with `=`, if any (`--color=never`).
    Optional,
    /// The next value (`--time atime`).
    Required,
    /// The next value, as a number (`--max-depth 2`).
    Number,
}

/// What the parser gave for an option's value.
pub enum ArgInput {
    Nothing,
    Optional(Option<String>),
    Required(Result<String, String>),
    Number(Result<usize, String>),
}

/// What the parser gave for an option's value, in the abstract.
pub enum InputView {
    Nothing,
    Optional(Option<Seq<char>>),
    Required(Result<Seq<char>, Seq<char>>),
    Number(Result<usize, Seq<char>>),
}

impl View for ArgInput {
    type V = InputView;

    open spec fn view(&self) -> InputView {
        match self {
            ArgInput::Nothing => InputView::Nothing,
            ArgInput::Optional(Some(v)) => InputView::Optional(Some(v@)),
            ArgInput::Optional(None) => InputView::Optional(None),
            ArgInput::Required(Ok(v)) => InputView::Required(Ok(v@)),
            ArgInput::Required(Err(m)) => InputView::Required(Err(m@)),
            ArgInput::Number(Ok(n)) => InputView::Number(Ok(*n)),
            ArgInput::Number(Err(m)) => InputView::Number(Err(m@)),
        }
    }
}

/// Why the arguments were refused.
pub enum ConfigError {
    /// The argument parser refused the command line; its message.
    Parser(String),
    /// A `--color` value other than `always`, `auto` or `never`.
    InvalidColor(String),
    /// An `--icons` value other than `always`, `auto` or `never`.
    InvalidIcons(String),
    /// A `--mode` value other than `native`, `pwsh` or `rwx`.
    InvalidMode(String),
    /// A `--time` value that names no timestamp.
    InvalidTime(String),
    /// A short option that does not exist.
    UnexpectedShort(char),
    /// A long option that does not exist.
    UnexpectedLong(String),
}

/// Why the arguments were refused, in the abstract.
pub enum ErrorView {
    Parser(Seq<char>),
    InvalidColor(Seq<char>),
    InvalidIcons(Seq<char>),
    InvalidMode(Seq<char>),
    InvalidTime(Seq<char>),
    UnexpectedShort(char),
    UnexpectedLong(Seq<char>),
}

impl View for ConfigError {
    type V = ErrorView;

    open spec fn view(&self) -> ErrorView {
        match self {
            ConfigError::Parser(m) => ErrorView::Parser(m@),
            ConfigError::InvalidColor(w) => ErrorView::InvalidColor(w@),
            ConfigError::InvalidIcons(w) => ErrorView::InvalidIcons(w@),
            ConfigError::InvalidMode(w) => ErrorView::InvalidMode(w@),
            ConfigError::InvalidTime(w) => ErrorView::InvalidTime(w@),
            ConfigError::UnexpectedShort(c) => ErrorView::UnexpectedShort(*c),
            ConfigError::UnexpectedLong(n) => ErrorView::UnexpectedLong(n@),
        }
    }
}

/// How a step of argument handling ends.
pub enum StepEnd {
    /// Go on with the next argument.
    Continue,
    /// `--help` was asked for.
    Help,
    /// `--version` was asked for.
    Version,
    /// The argument was refused.
    Fail(ConfigError),
}

/// How a step of argument handling ends, in the abstract.
pub enum EndView {
    Continue,
    Help,
    Version,
    Fail(ErrorView),
}

impl View for StepEnd {
    type V = EndView;

    open spec fn view(&self) -> EndView {
        match self {
            StepEnd::Continue => EndView::Continue,
            StepEnd::Help => EndView::Help,
            StepEnd::Version => EndView::Version,
            StepEnd::Fail(e) => EndView::Fail(e@),
        }
    }
}

/// How the whole command line was taken.
#[derive(Debug, Clone, Copy, PartialEq, Eq, Structural)]
pub enum ParseOutcome {
    /// Every argument was taken.
    Done,
    /// `--help` was asked for; the arguments after it were not looked at.
    Help,
    /// `--version` was asked for; the arguments after it were not looked at.
    Version,
}

/// How the whole command line was taken, or why it was refused, in the
/// abstract.
pub enum ParseEnd {
    Done,
    Help,
    Version,
    Fail(ErrorView),
}

/// The abstract outcome of parsing.
pub open spec fn outcome_view(r: Result<ParseOutcome, ConfigError>) -> ParseEnd {
    match r {
        Ok(ParseOutcome::Done) => ParseEnd::Done,
        Ok(ParseOutcome::Help) => ParseEnd::Help,
        Ok(ParseOutcome::Version) => ParseEnd::Version,
        Err(e) => ParseEnd::Fail(e@),
    }
}

/// The parser `lexopt::Parser::from_args` builds for `args`.
pub uninterp spec fn lexopt_from_args(args: Seq<Seq<char>>) -> lexopt::Parser;

/// What `lexopt::Parser::next` gives from a parser in state `p`: the next
/// argument, none when they have run out, or the message of its error; and
/// the parser's state afterwards.
pub uninterp spec fn lexopt_next(p: lexopt::Parser) -> (Result<Option<ArgToken>, Seq<char>>, lexopt::Parser);

/// What `lexopt::Parser::optional_value` gives from a parser in state `p`,
/// and the parser's state afterwards.
pub uninterp spec fn lexopt_optional_value(p: lexopt::Parser) -> (Option<Seq<char>>, lexopt::Parser);

/// What `lexopt::Parser::value` gives from a parser in state `p` (the
/// value, or the message of its error), and the state afterwards.
pub uninterp spec fn lexopt_value(p: lexopt::Parser) -> (Result<Seq<char>, Seq<char>>, lexopt::Parser);

/// What `lexopt::Parser::value` followed by `ValueExt::parse::<usize>`
/// gives from a parser in state `p` (the number, or the message of the
/// error of either), and the state afterwards.
pub uninterp spec fn lexopt_number_value(p: lexopt::Parser) -> (Result<usize, Seq<char>>, lexopt::Parser);

/// The abstract reply of `next_arg`.
pub open spec fn next_view(r: Result<Option<CliArg>, String>) -> Result<Option<ArgToken>, Seq<char>> {
    match r {
        Ok(Some(a)) => Ok(Some(a@)),
        Ok(None) => Ok(None),
        Err(m) => Err(m@),
    }
}

/// The characters of each argument.
pub open spec fn args_view(args: Seq<String>) -> Seq<Seq<char>> {
    args.map_values(|a: String| a@)
}

/// `lexopt::Parser::from_args`: a parser over `args`. Its state is named.
#[verifier::external_body]
fn new_parser(args: &Vec<String>) -> (r: lexopt::Parser)
    ensures
        r == lexopt_from_args(args_view(args@)),
{
    lexopt::Parser::from_args(args.clone())
}

/// `lexopt::Parser::next`: the next argument, with long names and values
/// converted to `String` (they come from `String` arguments, so nothing is
/// lost), or the parser's error message (`Display` of `lexopt::Error`).
/// The reply and the state afterwards are named.
#[verifier::external_body]
fn next_arg(parser: &mut lexopt::Parser) -> (r: Result<Option<CliArg>, String>)
    ensures
        next_view(r) == lexopt_next(*old(parser)).0,
        *final(parser) == lexopt_next(*old(parser)).1,
{
    match parser.next() {
        Ok(Some(lexopt::Arg::Short(c))) => Ok(Some(CliArg::Short(c))),
        Ok(Some(lexopt::Arg::Long(name))) => Ok(Some(CliArg::Long(name.to_string()))),
        Ok(Some(lexopt::Arg::Value(value))) => Ok(Some(CliArg::Value(value.to_string_lossy().into_owned()))),
        Ok(None) => Ok(None),
        Err(err) => Err(err.to_string()),
    }
}

/// `lexopt::Parser::optional_value`: a value attached to the current long
/// option, converted to `String`. The reply and the state afterwards are
/// named.
#[verifier::external_body]
fn optional_value(parser: &mut lexopt::Parser) -> (r: Option<String>)
    ensures
        (match r {
            Some(v) => Some(v@),
            None => None,
        }) == lexopt_optional_value(*old(parser)).0,
        *final(parser) == lexopt_optional_value(*old(parser)).1,
{
    parser.optional_value().map(|value| value.to_string_lossy().into_owned())
}

/// `lexopt::Parser::value`: the value of the current option, converted to
/// `String`, or the parser's error message. The reply and the state
/// afterwards are named.
#[verifier::external_body]
fn required_value(parser: &mut lexopt::Parser) -> (r: Result<String, String>)
    ensures
        (match r {
            Ok(v) => Ok(v@),
            Err(m) => Err(m@),
        }) == lexopt_value(*old(parser)).0,
        *final(parser) == lexopt_value(*old(parser)).1,
{
    match parser.value() {
        Ok(value) => Ok(value.to_string_lossy().into_owned()),
        Err(err) => Err(err.to_string()),
    }
}

/// `lexopt::Parser::value` followed by `lexopt::ValueExt::parse::<usize>`:
/// the value of the current option as a number, or the error message. The
/// reply and the state afterwards are named.
#[verifier::external_body]
fn number_value(parser: &mut lexopt::Parser) -> (r: Result<usize, String>)
    ensures
        (match r {
            Ok(n) => Ok(n),
            Err(m) => Err(m@),
        }) == lexopt_number_value(*old(parser)).0,
        *final(parser) == lexopt_number_value(*old(parser)).1,
{
    match parser.value().and_then(|value| value.parse::<usize>()) {
        Ok(number) => Ok(number),
        Err(err) => Err(err.to_string()),
    }
}

/// The path `PathBuf::from` makes of a string.
pub uninterp spec fn path_of(s: Seq<char>) -> std::path::PathBuf;

/// `PathBuf::from(String)`; the path is named.
#[verifier::external_body]
fn path_from(s: String) -> (r: std::path::PathBuf)
    ensures
        r == path_of(s@),
{
    std::path::PathBuf::from(s)
}

/// The long options, by name.
#[derive(Debug, Clone, Copy, PartialEq, Eq, Structural)]
pub enum LongName {
    All,
    AlmostAll,
    AllocatedBytes,
    Color,
    Directory,
    Classify,
    Gitignore,
    HumanReadable,
    DereferenceCommandLine,
    Help,
    Inode,
    IgnoreGlob,
    Icons,
    Iec,
    IgnoreFile,
    Kibibytes,
    Dereference,
    MaxDepth,
    Mode,
    NumericUidGid,
    Reverse,
    Recursive,
    Size,
    Si,
    Time,
    Version,
    Unknown,
}

/// The long option a name stands for.
pub open spec fn long_name_spec(s: Seq<char>) -> LongName {
    if s == "all"@ {
        LongName::All
    } else if s == "almost-all"@ {
        LongName::AlmostAll
    } else if s == "allocated-bytes"@ {
        LongName::AllocatedBytes
    } else if s == "color"@ {
        LongName::Color
    } else if s == "directory"@ {
        LongName::Directory
    } else if s == "classify"@ {
        LongName::Classify
    } else if s == "gitignore"@ {
        LongName::Gitignore
    } else if s == "human-readable"@ {
        LongName::HumanReadable
    } else if s == "dereference-command-line"@ {
        LongName::DereferenceCommandLine
    } else if s == "help"@ {
        LongName::Help
    } else if s == "inode"@ {
        LongName::Inode
    } else if s == "ignore-glob"@ {
        LongName::IgnoreGlob
    } else if s == "icons"@ {
        LongName::Icons
    } else if s == "iec"@ {
        LongName::Iec
    } else if s == "ignore-file"@ {
        LongName::IgnoreFile
    } else if s == "kibibytes"@ {
        LongName::Kibibytes
    } else if s == "dereference"@ {
        LongName::Dereference
    } else if s == "max-depth"@ {
        LongName::MaxDepth
    } else if s == "mode"@ {
        LongName::Mode
    } else if s == "numeric-uid-gid"@ {
        LongName::NumericUidGid
    } else if s == "reverse"@ {
        LongName::Reverse
    } else if s == "recursive"@ {
        LongName::Recursive
    } else if s == "size"@ {
        LongName::Size
    } else if s == "si"@ {
        LongName::Si
    } else if s == "time"@ {
        LongName::Time
    } else if s == "version"@ {
        LongName::Version
    } else {
        LongName::Unknown
    }
}

/// The long option a name stands for.
pub fn long_name(s: &str) -> (r: LongName)
    ensures
        r == long_name_spec(s@),
{
    if str_eq(s, "all") {
        LongName::All
    } else if str_eq(s, "almost-all") {
        LongName::AlmostAll
    } else if str_eq(s, "allocated-bytes") {
        LongName::AllocatedBytes
    } else if str_eq(s, "color") {
        LongName::Color
    } else if str_eq(s, "directory") {
        LongName::Directory
    } else if str_eq(s, "classify") {
        LongName::Classify
    } else if str_eq(s, "gitignore") {
        LongName::Gitignore
    } else if str_eq(s, "human-readable") {
        LongName::HumanReadable
    } else if str_eq(s, "dereference-command-line") {
        LongName::DereferenceCommandLine
    } else if str_eq(s, "help") {
        LongName::Help
    } else if str_eq(s, "inode") {
        LongName::Inode
    } else if str_eq(s, "ignore-glob") {
        LongName::IgnoreGlob
    } else if str_eq(s, "icons") {
        LongName::Icons
    } else if str_eq(s, "iec") {
        LongName::Iec
    } else if str_eq(s, "ignore-file") {
        LongName::IgnoreFile
    } else if str_eq(s, "kibibytes") {
        LongName::Kibibytes
    } else if str_eq(s, "dereference") {
        LongName::Dereference
    } else if str_eq(s, "max-depth") {
        LongName::MaxDepth
    } else if str_eq(s, "mode") {
        LongName::Mode
    } else if str_eq(s, "numeric-uid-gid") {
        LongName::NumericUidGid
    } else if str_eq(s, "reverse") {
        LongName::Reverse
    } else if str_eq(s, "recursive") {
        LongName::Recursive
    } else if str_eq(s, "size") {
        LongName::Size
    } else if str_eq(s, "si") {
        LongName::Si
    } else if str_eq(s, "time") {
        LongName::Time
    } else if str_eq(s, "version") {
        LongName::Version
    } else {
        LongName::Unknown
    }
}

/// The values of `--color` and `--icons`.
#[derive(Debug, Clone, Copy, PartialEq, Eq, Structural)]
pub enum WhenWord {
    Always,
    Auto,
    Never,
    Other,
}

/// The `--color`/`--icons` value a word stands for.
pub open spec fn when_word_spec(s: Seq<char>) -> WhenWord {
    if s == "always"@ {
        WhenWord::Always
    } else if s == "auto"@ {
        WhenWord::Auto
    } else if s == "never"@ {
        WhenWord::Never
    } else {
        WhenWord::Other
    }
}

fn when_word(s: &str) -> (r: WhenWord)
    ensures
        r == when_word_spec(s@),
{
    if str_eq(s, "always") {
        WhenWord::Always
    } else if str_eq(s, "auto") {
        WhenWord::Auto
    } else if str_eq(s, "never") {
        WhenWord::Never
    } else {
        WhenWord::Other
    }
}

/// The `--mode` value a word stands for: `native` and `rwx` give the `rwx`
/// format on this platform, `pwsh` the PowerShell format.
pub open spec fn mode_word_spec(s: Seq<char>) -> Option<ModeFormat> {
    if s == "native"@ {
        Some(ModeFormat::Rwx)
    } else if s == "pwsh"@ {
        Some(ModeFormat::Pwsh)
    } else if s == "rwx"@ {
        Some(ModeFormat::Rwx)
    } else {
        None
    }
}

fn mode_word(s: &str) -> (r: Option<ModeFormat>)
    ensures
        r == mode_word_spec(s@),
{
    if str_eq(s, "native") {
        let mut mode = ModeFormat::Pwsh;
        mode.set_native();
        Some(mode)
    } else if str_eq(s, "pwsh") {
        Some(ModeFormat::Pwsh)
    } else if str_eq(s, "rwx") {
        Some(ModeFormat::Rwx)
    } else {
        None
    }
}

/// The timestamp a `--time` value names.
pub open spec fn time_word_spec(s: Seq<char>) -> Option<TimestampUsed> {
    if s == "accessed"@ || s == "atime"@ {
        Some(TimestampUsed::Accessed)
    } else if s == "changed"@ || s == "ctime"@ {
        Some(TimestampUsed::Changed)
    } else if s == "created"@ || s == "btime"@ {
        Some(TimestampUsed::Created)
    } else if s == "modified"@ || s == "mtime"@ {
        Some(TimestampUsed::Modified)
    } else {
        None
    }
}

fn time_word(s: &str) -> (r: Option<TimestampUsed>)
    ensures
        r == time_word_spec(s@),
{
    if str_eq(s, "accessed") || str_eq(s, "atime") {
        Some(TimestampUsed::Accessed)
    } else if str_eq(s, "changed") || str_eq(s, "ctime") {
        Some(TimestampUsed::Changed)
    } else if str_eq(s, "created") || str_eq(s, "btime") {
        Some(TimestampUsed::Created)
    } else if str_eq(s, "modified") || str_eq(s, "mtime") {
        Some(TimestampUsed::Modified)
    } else {
        None
    }
}

/// What an option needs from the parser after it: `--color` and `--icons`
/// take an attached value if there is one; `-I`/`--ignore-glob`, `--mode`
/// and `--time` the next value; `--max-depth` the next value as a number.
pub open spec fn input_kind_spec(arg: ArgToken) -> InputKind {
    match arg {
        ArgToken::Short(c) => if c == 'I' {
            InputKind::Required
        } else {
            InputKind::Nothing
        },
        ArgToken::Long(name) => match long_name_spec(name) {
            LongName::Color | LongName::Icons => InputKind::Optional,
            LongName::IgnoreGlob | LongName::Mode | LongName::Time => InputKind::Required,
            LongName::MaxDepth => InputKind::Number,
            _ => InputKind::Nothing,
        },
        ArgToken::Value(_) => InputKind::Nothing,
    }
}

/// The outcome of taking one argument: how it ends, the configuration
/// and the paths to list afterwards. A positional argument is a path to
/// list; an option changes the configuration.
pub open spec fn step_spec(
    c: ConfigView,
    paths: Seq<std::path::PathBuf>,
    arg: ArgToken,
    input: InputView,
) -> (EndView, ConfigView, Seq<std::path::PathBuf>) {
    match arg {
        ArgToken::Value(path) => (EndView::Continue, c, paths.push(path_of(path))),
        ArgToken::Short(ch) => {
            let (end, c2) = short_option_spec(c, ch, input);
            (end, c2, paths)
        },
        ArgToken::Long(name) => {
            let (end, c2) = long_option_spec(c, name, input);
            (end, c2, paths)
        },
    }
}

/// Hidden entries are listed, and `.` and `..` when `dots` is set (`-a` and `-A`).
#[verifier::opaque]
pub open spec fn listing_all(c: ConfigView, dots: bool) -> ConfigView {
    ConfigView { list_current_and_parent_dirs: dots, ignore_hidden: false, ..c }
}

/// Colours on or off.
#[verifier::opaque]
pub open spec fn with_color(c: ConfigView, color: bool) -> ConfigView {
    ConfigView { color: color, ..c }
}

/// The icons shown before names.
#[verifier::opaque]
pub open spec fn with_icons(c: ConfigView, icons: IconTheme) -> ConfigView {
    ConfigView { icons: icons, ..c }
}

/// Which timestamp is shown and sorted by.
#[verifier::opaque]
pub open spec fn with_timestamp_used(c: ConfigView, used: TimestampUsed) -> ConfigView {
    ConfigView { timestamp_used: used, ..c }
}

/// The layout of the listing.
#[verifier::opaque]
pub open spec fn with_output_format(c: ConfigView, format: OutputFormat) -> ConfigView {
    ConfigView { output_format: format, ..c }
}

/// Directories are listed as entries, not by their contents (`-d`).
#[verifier::opaque]
pub open spec fn without_dir_contents(c: ConfigView) -> ConfigView {
    ConfigView { list_dir: false, ..c }
}

/// Which type indicators follow names.
#[verifier::opaque]
pub open spec fn with_indicator_style(c: ConfigView, style: IndicatorStyle) -> ConfigView {
    ConfigView { indicator_style: style, ..c }
}

/// The long format without the owner column (`-g`).
#[verifier::opaque]
pub open spec fn long_without_owner(c: ConfigView) -> ConfigView {
    ConfigView { list_owner: false, output_format: OutputFormat::Long, ..c }
}

/// The long format without the group column (`-o`).
#[verifier::opaque]
pub open spec fn long_without_group(c: ConfigView) -> ConfigView {
    ConfigView { list_group: false, output_format: OutputFormat::Long, ..c }
}

/// The long format with numeric owner and group ids (`-n`).
#[verifier::opaque]
pub open spec fn long_with_numeric_ids(c: ConfigView) -> ConfigView {
    ConfigView { numeric_uid_gid: true, output_format: OutputFormat::Long, ..c }
}

/// Entries ignored by git are left out.
#[verifier::opaque]
pub open spec fn with_git_ignore(c: ConfigView) -> ConfigView {
    ConfigView { git_ignore: true, ..c }
}

/// Entries ignored by `.ignore` files are left out.
#[verifier::opaque]
pub open spec fn with_ignore_file(c: ConfigView) -> ConfigView {
    ConfigView { ignore_file: true, ..c }
}

/// A size format with unit prefixes; allocated sizes then count bytes.
#[verifier::opaque]
pub open spec fn with_size_format(c: ConfigView, format: SizeFormat) -> ConfigView {
    ConfigView { size_format: format, allocated_size_blocks: AllocatedSizeBlocks::Raw, ..c }
}

/// Symbolic links named on the command line are followed, and all links when `all` is set (`-L`, `-H`).
#[verifier::opaque]
pub open spec fn with_dereference(c: ConfigView, all: bool) -> ConfigView {
    ConfigView { dereference: all, dereference_cmdline_symlink: true, dereference_cmdline_symlink_dir: true, ..c }
}

/// The inode column is listed.
#[verifier::opaque]
pub open spec fn with_inode(c: ConfigView) -> ConfigView {
    ConfigView { list_inode: true, ..c }
}

/// The glob, negated, joins the ignore globs.
#[verifier::opaque]
pub open spec fn with_ignore_glob(c: ConfigView, glob: Seq<char>) -> ConfigView {
    ConfigView { ignore_glob_vec: c.ignore_glob_vec.push(seq!['!'] + glob), ..c }
}

/// Allocated sizes in `unit`, unless sizes are shown with unit prefixes (`-k`, `--allocated-bytes`).
#[verifier::opaque]
pub open spec fn with_allocated_unit(c: ConfigView, unit: AllocatedSizeBlocks) -> ConfigView {
    if c.size_format == SizeFormat::Raw {
        ConfigView { allocated_size_blocks: unit, ..c }
    } else {
        c
    }
}

/// How deep recursion goes.
#[verifier::opaque]
pub open spec fn with_max_depth(c: ConfigView, depth: usize) -> ConfigView {
    ConfigView { max_depth: Some(depth), ..c }
}

/// How permissions are shown.
#[verifier::opaque]
pub open spec fn with_mode_format(c: ConfigView, mode: ModeFormat) -> ConfigView {
    ConfigView { mode_format: mode, ..c }
}

/// The sort order is reversed.
#[verifier::opaque]
pub open spec fn with_reverse(c: ConfigView) -> ConfigView {
    ConfigView { reverse: true, ..c }
}

/// Directories are listed recursively.
#[verifier::opaque]
pub open spec fn with_recursive(c: ConfigView) -> ConfigView {
    ConfigView { recursive: true, ..c }
}

/// The allocated-size column is listed.
#[verifier::opaque]
pub open spec fn with_allocated_size(c: ConfigView) -> ConfigView {
    ConfigView { list_allocated_size: true, ..c }
}

/// The key entries are sorted by.
#[verifier::opaque]
pub open spec fn with_sorting_order(c: ConfigView, order: SortingOrder) -> ConfigView {
    ConfigView { sorting_order: order, ..c }
}

/// `--color` with its optional value: `always`, `auto` (colours when
/// writing to a terminal) or `never`; no value means `always`.
pub open spec fn color_spec(c: ConfigView, input: InputView) -> (EndView, ConfigView) {
    match input {
        InputView::Optional(Some(when)) => match when_word_spec(when) {
            WhenWord::Always => (EndView::Continue, with_color(c, true)),
            WhenWord::Auto => (EndView::Continue, with_color(c, c.is_atty)),
            WhenWord::Never => (EndView::Continue, with_color(c, false)),
            WhenWord::Other => (EndView::Fail(ErrorView::InvalidColor(when)), c),
        },
        _ => (EndView::Continue, with_color(c, true)),
    }
}

/// `--icons` with its optional value: `always`, `auto` (icons when writing
/// to a terminal) or `never`; no value means `always`.
pub open spec fn icons_spec(c: ConfigView, input: InputView) -> (EndView, ConfigView) {
    match input {
        InputView::Optional(Some(when)) => match when_word_spec(when) {
            WhenWord::Always => (EndView::Continue, with_icons(c, IconTheme::default_icons_spec())),
            WhenWord::Auto => (
                EndView::Continue,
                with_icons(
                    c,
                    if c.is_atty {
                        IconTheme::default_icons_spec()
                    } else {
                        IconTheme::new_spec()
                    },
                ),
            ),
            WhenWord::Never => (EndView::Continue, with_icons(c, IconTheme::new_spec())),
            WhenWord::Other => (EndView::Fail(ErrorView::InvalidIcons(when)), c),
        },
        _ => (EndView::Continue, with_icons(c, IconTheme::default_icons_spec())),
    }
}

/// `-I`/`--ignore-glob` with its value.
pub open spec fn ignore_glob_spec(c: ConfigView, input: InputView) -> (EndView, ConfigView) {
    match input {
        InputView::Required(Ok(glob)) => (EndView::Continue, with_ignore_glob(c, glob)),
        InputView::Required(Err(msg)) => (EndView::Fail(ErrorView::Parser(msg)), c),
        _ => (EndView::Continue, c),
    }
}

/// `--max-depth` with its number.
pub open spec fn max_depth_spec(c: ConfigView, input: InputView) -> (EndView, ConfigView) {
    match input {
        InputView::Number(Ok(depth)) => (EndView::Continue, with_max_depth(c, depth)),
        InputView::Number(Err(msg)) => (EndView::Fail(ErrorView::Parser(msg)), c),
        _ => (EndView::Continue, c),
    }
}

/// `--mode` with its value.
pub open spec fn mode_spec(c: ConfigView, input: InputView) -> (EndView, ConfigView) {
    match input {
        InputView::Required(Ok(word)) => match mode_word_spec(word) {
            Some(mode) => (EndView::Continue, with_mode_format(c, mode)),
            None => (EndView::Fail(ErrorView::InvalidMode(word)), c),
        },
        InputView::Required(Err(msg)) => (EndView::Fail(ErrorView::Parser(msg)), c),
        _ => (EndView::Continue, c),
    }
}

/// `--time` with its value.
pub open spec fn time_spec(c: ConfigView, input: InputView) -> (EndView, ConfigView) {
    match input {
        InputView::Required(Ok(word)) => match time_word_spec(word) {
            Some(used) => (EndView::Continue, with_timestamp_used(c, used)),
            None => (EndView::Fail(ErrorView::InvalidTime(word)), c),
        },
        InputView::Required(Err(msg)) => (EndView::Fail(ErrorView::Parser(msg)), c),
        _ => (EndView::Continue, c),
    }
}

/// The effect of a short option.
pub open spec fn short_option_spec(c: ConfigView, ch: char, input: InputView) -> (EndView, ConfigView) {
    let go = |c2: ConfigView| (EndView::Continue, c2);
    if ch == 'a' {
        go(listing_all(c, true))
    } else if ch == 'A' {
        go(listing_all(c, false))
    } else if ch == 'c' {
        go(with_timestamp_used(c, TimestampUsed::Changed))
    } else if ch == 'C' {
        go(with_output_format(c, OutputFormat::Vertical))
    } else if ch == 'd' {
        go(without_dir_contents(c))
    } else if ch == 'F' {
        go(with_indicator_style(c, IndicatorStyle::Classify))
    } else if ch == 'g' {
        go(long_without_owner(c))
    } else if ch == 'h' {
        go(with_size_format(c, SizeFormat::HumanReadable))
    } else if ch == 'H' {
        go(with_dereference(c, false))
    } else if ch == 'i' {
        go(with_inode(c))
    } else if ch == 'I' {
        ignore_glob_spec(c, input)
    } else if ch == 'k' {
        go(with_allocated_unit(c, AllocatedSizeBlocks::Kibibytes))
    } else if ch == 'l' {
        go(with_output_format(c, OutputFormat::Long))
    } else if ch == 'L' {
        go(with_dereference(c, true))
    } else if ch == 'n' {
        go(long_with_numeric_ids(c))
    } else if ch == 'o' {
        go(long_without_group(c))
    } else if ch == 'p' {
        go(with_indicator_style(c, IndicatorStyle::Slash))
    } else if ch == 'r' {
        go(with_reverse(c))
    } else if ch == 'R' {
        go(with_recursive(c))
    } else if ch == 's' {
        go(with_allocated_size(c))
    } else if ch == 'S' {
        go(with_sorting_order(c, SortingOrder::Size))
    } else if ch == 't' {
        go(with_sorting_order(c, SortingOrder::Timestamp))
    } else if ch == 'u' {
        go(with_timestamp_used(c, TimestampUsed::Accessed))
    } else if ch == 'x' {
        go(with_output_format(c, OutputFormat::Across))
    } else if ch == '1' {
        go(with_output_format(c, OutputFormat::SingleColumn))
    } else {
        (EndView::Fail(ErrorView::UnexpectedShort(ch)), c)
    }
}

/// The effect of a long option.
pub open spec fn long_option_spec(c: ConfigView, name: Seq<char>, input: InputView) -> (EndView, ConfigView) {
    let go = |c2: ConfigView| (EndView::Continue, c2);
    match long_name_spec(name) {
        LongName::All => go(listing_all(c, true)),
        LongName::AlmostAll => go(listing_all(c, false)),
        LongName::AllocatedBytes => go(with_allocated_unit(c, AllocatedSizeBlocks::Raw)),
        LongName::Color => color_spec(c, input),
        LongName::Directory => go(without_dir_contents(c)),
        LongName::Classify => go(with_indicator_style(c, IndicatorStyle::Classify)),
        LongName::Gitignore => go(with_git_ignore(c)),
        LongName::HumanReadable => go(with_size_format(c, SizeFormat::HumanReadable)),
        LongName::DereferenceCommandLine => go(with_dereference(c, false)),
        LongName::Help => (EndView::Help, c),
        LongName::Inode => go(with_inode(c)),
        LongName::IgnoreGlob => ignore_glob_spec(c, input),
        LongName::Icons => icons_spec(c, input),
        LongName::Iec => go(with_size_format(c, SizeFormat::Iec)),
        LongName::IgnoreFile => go(with_ignore_file(c)),
        LongName::Kibibytes => go(with_allocated_unit(c, AllocatedSizeBlocks::Kibibytes)),
        LongName::Dereference => go(with_dereference(c, true)),
        LongName::MaxDepth => max_depth_spec(c, input),
        LongName::Mode => mode_spec(c, input),
        LongName::NumericUidGid => go(long_with_numeric_ids(c)),
        LongName::Reverse => go(with_reverse(c)),
        LongName::Recursive => go(with_recursive(c)),
        LongName::Size => go(with_allocated_size(c)),
        LongName::Si => go(with_size_format(c, SizeFormat::Si)),
        LongName::Time => time_spec(c, input),
        LongName::Version => (EndView::Version, c),
        LongName::Unknown => (EndView::Fail(ErrorView::UnexpectedLong(name)), c),
    }
}

/// The options the help page lists with a one-letter and a long spelling
/// (`-a, --all` and the like) do the same thing under either spelling.
pub proof fn law_short_and_long_spellings_agree(c: ConfigView, input: InputView)
    ensures
        long_option_spec(c, "all"@, input) == short_option_spec(c, 'a', input),
        long_option_spec(c, "almost-all"@, input) == short_option_spec(c, 'A', input),
        long_option_spec(c, "directory"@, input) == short_option_spec(c, 'd', input),
        long_option_spec(c, "classify"@, input) == short_option_spec(c, 'F', input),
        long_option_spec(c, "human-readable"@, input) == short_option_spec(c, 'h', input),
        long_option_spec(c, "dereference-command-line"@, input) == short_option_spec(c, 'H', input),
        long_option_spec(c, "inode"@, input) == short_option_spec(c, 'i', input),
        long_option_spec(c, "ignore-glob"@, input) == short_option_spec(c, 'I', input),
        long_option_spec(c, "kibibytes"@, input) == short_option_spec(c, 'k', input),
        long_option_spec(c, "dereference"@, input) == short_option_spec(c, 'L', input),
        long_option_spec(c, "numeric-uid-gid"@, input) == short_option_spec(c, 'n', input),
        long_option_spec(c, "reverse"@, input) == short_option_spec(c, 'r', input),
        long_option_spec(c, "recursive"@, input) == short_option_spec(c, 'R', input),
        long_option_spec(c, "size"@, input) == short_option_spec(c, 's', input),
{
    reveal_strlit("all");
    assert("all"@ =~= seq!['a', 'l', 'l']);
    reveal_strlit("almost-all");
    assert("almost-all"@ =~= seq!['a', 'l', 'm', 'o', 's', 't', '-', 'a', 'l', 'l']);
    reveal_strlit("allocated-bytes");
    assert("allocated-bytes"@ =~= seq!['a', 'l', 'l', 'o', 'c', 'a', 't', 'e', 'd', '-', 'b', 'y', 't', 'e', 's']);
    reveal_strlit("color");
    assert("color"@ =~= seq!['c', 'o', 'l', 'o', 'r']);
    reveal_strlit("directory");
    assert("directory"@ =~= seq!['d', 'i', 'r', 'e', 'c', 't', 'o', 'r', 'y']);
    reveal_strlit("classify");
    assert("classify"@ =~= seq!['c', 'l', 'a', 's', 's', 'i', 'f', 'y']);
    reveal_strlit("gitignore");
    assert("gitignore"@ =~= seq!['g', 'i', 't', 'i', 'g', 'n', 'o', 'r', 'e']);
    reveal_strlit("human-readable");
    assert("human-readable"@ =~= seq!['h', 'u', 'm', 'a', 'n', '-', 'r', 'e', 'a', 'd', 'a', 'b', 'l', 'e']);
    reveal_strlit("dereference-command-line");
    assert("dereference-command-line"@ =~= seq!['d', 'e', 'r', 'e', 'f', 'e', 'r', 'e', 'n', 'c', 'e', '-', 'c', 'o', 'm', 'm', 'a', 'n', 'd', '-', 'l', 'i', 'n', 'e']);
    reveal_strlit("help");
    assert("help"@ =~= seq!['h', 'e', 'l', 'p']);
    reveal_strlit("inode");
    assert("inode"@ =~= seq!['i', 'n', 'o', 'd', 'e']);
    reveal_strlit("ignore-glob");
    assert("ignore-glob"@ =~= seq!['i', 'g', 'n', 'o', 'r', 'e', '-', 'g', 'l', 'o', 'b']);
    reveal_strlit("icons");
    assert("icons"@ =~= seq!['i', 'c', 'o', 'n', 's']);
    reveal_strlit("iec");
    assert("iec"@ =~= seq!['i', 'e', 'c']);
    reveal_strlit("ignore-file");
    assert("ignore-file"@ =~= seq!['i', 'g', 'n', 'o', 'r', 'e', '-', 'f', 'i', 'l', 'e']);
    reveal_strlit("kibibytes");
    assert("kibibytes"@ =~= seq!['k', 'i', 'b', 'i', 'b', 'y', 't', 'e', 's']);
    reveal_strlit("dereference");
    assert("dereference"@ =~= seq!['d', 'e', 'r', 'e', 'f', 'e', 'r', 'e', 'n', 'c', 'e']);
    reveal_strlit("max-depth");
    assert("max-depth"@ =~= seq!['m', 'a', 'x', '-', 'd', 'e', 'p', 't', 'h']);
    reveal_strlit("mode");
    assert("mode"@ =~= seq!['m', 'o', 'd', 'e']);
    reveal_strlit("numeric-uid-gid");
    assert("numeric-uid-gid"@ =~= seq!['n', 'u', 'm', 'e', 'r', 'i', 'c', '-', 'u', 'i', 'd', '-', 'g', 'i', 'd']);
    reveal_strlit("reverse");
    assert("reverse"@ =~= seq!['r', 'e', 'v', 'e', 'r', 's', 'e']);
    reveal_strlit("recursive");
    assert("recursive"@ =~= seq!['r', 'e', 'c', 'u', 'r', 's', 'i', 'v', 'e']);
    reveal_strlit("size");
    assert("size"@ =~= seq!['s', 'i', 'z', 'e']);
}

/// What an option needs from the parser after it.
pub fn input_kind(arg: &CliArg) -> (r: InputKind)
    ensures
        r == input_kind_spec(arg@),
{
    match arg {
        CliArg::Short(c) => if *c == 'I' {
            InputKind::Required
        } else {
            InputKind::Nothing
        },
        CliArg::Long(name) => match long_name(name.as_str()) {
            LongName::Color | LongName::Icons => InputKind::Optional,
            LongName::IgnoreGlob | LongName::Mode | LongName::Time => InputKind::Required,
            LongName::MaxDepth => InputKind::Number,
            _ => InputKind::Nothing,
        },
        CliArg::Value(_) => InputKind::Nothing,
    }
}

impl Config {
    #[verifier::spinoff_prover]
    fn set_listing_all(&mut self, dots: bool)
        ensures
            final(self)@ == listing_all(old(self)@, dots),
    {
        self.list_current_and_parent_dirs = dots;
        self.ignore_hidden = false;
        proof {
            reveal(listing_all);
        }
    }

    #[verifier::spinoff_prover]
    fn set_with_color(&mut self, color: bool)
        ensures
            final(self)@ == with_color(old(self)@, color),
    {
        self.color = color;
        proof {
            reveal(with_color);
        }
    }

    #[verifier::spinoff_prover]
    fn set_with_icons(&mut self, icons: IconTheme)
        ensures
            final(self)@ == with_icons(old(self)@, icons),
    {
        self.icons = icons;
        proof {
            reveal(with_icons);
        }
    }

    #[verifier::spinoff_prover]
    fn set_with_timestamp_used(&mut self, used: TimestampUsed)
        ensures
            final(self)@ == with_timestamp_used(old(self)@, used),
    {
        self.timestamp_used = used;
        proof {
            reveal(with_timestamp_used);
        }
    }

    #[verifier::spinoff_prover]
    fn set_with_output_format(&mut self, format: OutputFormat)
        ensures
            final(self)@ == with_output_format(old(self)@, format),
    {
        self.output_format = format;
        proof {
            reveal(with_output_format);
        }
    }

    #[verifier::spinoff_prover]
    #[verifier::rlimit(40)]
    fn set_without_dir_contents(&mut self)
        ensures
            final(self)@ == without_dir_contents(old(self)@),
    {
        self.list_dir = false;
        proof {
            reveal(without_dir_contents);
        }
    }

    #[verifier::spinoff_prover]
    fn set_with_indicator_style(&mut self, style: IndicatorStyle)
        ensures
            final(self)@ == with_indicator_style(old(self)@, style),
    {
        self.indicator_style = style;
        proof {
            reveal(with_indicator_style);
        }
    }

    #[verifier::spinoff_prover]
    fn set_long_without_owner(&mut self)
        ensures
            final(self)@ == long_without_owner(old(self)@),
    {
        self.list_owner = false;
        self.output_format = OutputFormat::Long;
        proof {
            reveal(long_without_owner);
        }
    }

    #[verifier::spinoff_prover]
    fn set_long_without_group(&mut self)
        ensures
            final(self)@ == long_without_group(old(self)@),
    {
        self.list_group = false;
        self.output_format = OutputFormat::Long;
        proof {
            reveal(long_without_group);
        }
    }

    #[verifier::spinoff_prover]
    fn set_long_with_numeric_ids(&mut self)
        ensures
            final(self)@ == long_with_numeric_ids(old(self)@),
    {
        self.numeric_uid_gid = true;
        self.output_format = OutputFormat::Long;
        proof {
            reveal(long_with_numeric_ids);
        }
    }

    #[verifier::spinoff_prover]
    fn set_with_git_ignore(&mut self)
        ensures
            final(self)@ == with_git_ignore(old(self)@),
    {
        self.git_ignore = true;
        proof {
            reveal(with_git_ignore);
        }
    }

    #[verifier::spinoff_prover]
    fn set_with_ignore_file(&mut self)
        ensures
            final(self)@ == with_ignore_file(old(self)@),
    {
        self.ignore_file = true;
        proof {
            reveal(with_ignore_file);
        }
    }

    #[verifier::spinoff_prover]
    fn set_with_size_format(&mut self, format: SizeFormat)
        ensures
            final(self)@ == with_size_format(old(self)@, format),
    {
        self.size_format = format;
        self.allocated_size_blocks = AllocatedSizeBlocks::Raw;
        proof {
            reveal(with_size_format);
        }
    }

    #[verifier::spinoff_prover]
    fn set_with_dereference(&mut self, all: bool)
        ensures
            final(self)@ == with_dereference(old(self)@, all),
    {
        self.dereference = all;
        self.dereference_cmdline_symlink = true;
        self.dereference_cmdline_symlink_dir = true;
        proof {
            reveal(with_dereference);
        }
    }

    #[verifier::spinoff_prover]
    fn set_with_inode(&mut self)
        ensures
            final(self)@ == with_inode(old(self)@),
    {
        self.list_inode = true;
        proof {
            reveal(with_inode);
        }
    }

    #[verifier::spinoff_prover]
    fn set_with_allocated_unit(&mut self, unit: AllocatedSizeBlocks)
        ensures
            final(self)@ == with_allocated_unit(old(self)@, unit),
    {
        if self.size_format.is_raw() {
            self.allocated_size_blocks = unit;
        }
        proof {
            reveal(with_allocated_unit);
        }
    }

    #[verifier::spinoff_prover]
    fn set_with_max_depth(&mut self, depth: usize)
        ensures
            final(self)@ == with_max_depth(old(self)@, depth),
    {
        self.max_depth = Some(depth);
        proof {
            reveal(with_max_depth);
        }
    }

    #[verifier::spinoff_prover]
    fn set_with_mode_format(&mut self, mode: ModeFormat)
        ensures
            final(self)@ == with_mode_format(old(self)@, mode),
    {
        self.mode_format = mode;
        proof {
            reveal(with_mode_format);
        }
    }

    #[verifier::spinoff_prover]
    fn set_with_reverse(&mut self)
        ensures
            final(self)@ == with_reverse(old(self)@),
    {
        self.reverse = true;
        proof {
            reveal(with_reverse);
        }
    }

    #[verifier::spinoff_prover]
    fn set_with_recursive(&mut self)
        ensures
            final(self)@ == with_recursive(old(self)@),
    {
        self.recursive = true;
        proof {
            reveal(with_recursive);
        }
    }

    #[verifier::spinoff_prover]
    fn set_with_allocated_size(&mut self)
        ensures
            final(self)@ == with_allocated_size(old(self)@),
    {
        self.list_allocated_size = true;
        proof {
            reveal(with_allocated_size);
        }
    }

    #[verifier::spinoff_prover]
    fn set_with_sorting_order(&mut self, order: SortingOrder)
        ensures
            final(self)@ == with_sorting_order(old(self)@, order),
    {
        self.sorting_order = order;
        proof {
            reveal(with_sorting_order);
        }
    }
    #[verifier::spinoff_prover]
    fn set_with_ignore_glob(&mut self, glob: &str)
        ensures
            final(self)@ == with_ignore_glob(old(self)@, glob@),
    {
        let mut pattern = String::new();
        string_push(&mut pattern, '!');
        string_push_str(&mut pattern, glob);
        let ghost pattern_view = pattern@;
        self.ignore_glob_vec.push(pattern);
        proof {
            reveal(with_ignore_glob);
            assert(self.ignore_glob_vec@.map_values(|s: String| s@) =~= old(self).ignore_glob_vec@.map_values(
                |s: String| s@,
            ).push(pattern_view));
            assert(pattern_view =~= seq!['!'] + glob@);
        }
    }

    fn apply_short(&mut self, c: char, input: ArgInput) -> (r: StepEnd)
        ensures
            (r@, final(self)@) == short_option_spec(old(self)@, c, input@),
    {
        if c == 'a' {
            self.set_listing_all(true);
        } else if c == 'A' {
            self.set_listing_all(false);
        } else if c == 'c' {
            self.set_with_timestamp_used(TimestampUsed::Changed);
        } else if c == 'C' {
            self.set_with_output_format(OutputFormat::Vertical);
        } else if c == 'd' {
            self.set_without_dir_contents();
        } else if c == 'F' {
            self.set_with_indicator_style(IndicatorStyle::Classify);
        } else if c == 'g' {
            self.set_long_without_owner();
        } else if c == 'h' {
            self.set_with_size_format(SizeFormat::HumanReadable);
        } else if c == 'H' {
            self.set_with_dereference(false);
        } else if c == 'i' {
            self.set_with_inode();
        } else if c == 'I' {
            return self.apply_ignore_glob(input);
        } else if c == 'k' {
            self.set_with_allocated_unit(AllocatedSizeBlocks::Kibibytes);
        } else if c == 'l' {
            self.set_with_output_format(OutputFormat::Long);
        } else if c == 'L' {
            self.set_with_dereference(true);
        } else if c == 'n' {
            self.set_long_with_numeric_ids();
        } else if c == 'o' {
            self.set_long_without_group();
        } else if c == 'p' {
            self.set_with_indicator_style(IndicatorStyle::Slash);
        } else if c == 'r' {
            self.set_with_reverse();
        } else if c == 'R' {
            self.set_with_recursive();
        } else if c == 's' {
            self.set_with_allocated_size();
        } else if c == 'S' {
            self.set_with_sorting_order(SortingOrder::Size);
        } else if c == 't' {
            self.set_with_sorting_order(SortingOrder::Timestamp);
        } else if c == 'u' {
            self.set_with_timestamp_used(TimestampUsed::Accessed);
        } else if c == 'x' {
            self.set_with_output_format(OutputFormat::Across);
        } else if c == '1' {
            self.set_with_output_format(OutputFormat::SingleColumn);
        } else {
            return StepEnd::Fail(ConfigError::UnexpectedShort(c));
        }
        StepEnd::Continue
    }

    fn apply_ignore_glob(&mut self, input: ArgInput) -> (r: StepEnd)
        ensures
            (r@, final(self)@) == ignore_glob_spec(old(self)@, input@),
    {
        match input {
            ArgInput::Required(Ok(glob)) => {
                self.set_with_ignore_glob(glob.as_str());
                StepEnd::Continue
            },
            ArgInput::Required(Err(msg)) => StepEnd::Fail(ConfigError::Parser(msg)),
            _ => StepEnd::Continue,
        }
    }

    fn apply_color(&mut self, input: ArgInput) -> (r: StepEnd)
        ensures
            (r@, final(self)@) == color_spec(old(self)@, input@),
    {
        match input {
            ArgInput::Optional(Some(when)) => match when_word(when.as_str()) {
                WhenWord::Always => self.set_with_color(true),
                WhenWord::Auto => {
                    let is_atty = self.is_atty;
                    self.set_with_color(is_atty);
                },
                WhenWord::Never => self.set_with_color(false),
                WhenWord::Other => {
                    return StepEnd::Fail(ConfigError::InvalidColor(when));
                },
            },
            _ => self.set_with_color(true),
        }
        StepEnd::Continue
    }

    fn apply_icons(&mut self, input: ArgInput) -> (r: StepEnd)
        ensures
            (r@, final(self)@) == icons_spec(old(self)@, input@),
    {
        match input {
            ArgInput::Optional(Some(when)) => match when_word(when.as_str()) {
                WhenWord::Always => self.set_with_icons(IconTheme::with_default_icons()),
                WhenWord::Auto => {
                    if self.is_atty {
                        self.set_with_icons(IconTheme::with_default_icons());
                    } else {
                        self.set_with_icons(IconTheme::new());
                    }
                },
                WhenWord::Never => self.set_with_icons(IconTheme::new()),
                WhenWord::Other => {
                    return StepEnd::Fail(ConfigError::InvalidIcons(when));
                },
            },
            _ => self.set_with_icons(IconTheme::with_default_icons()),
        }
        StepEnd::Continue
    }

    fn apply_max_depth(&mut self, input: ArgInput) -> (r: StepEnd)
        ensures
            (r@, final(self)@) == max_depth_spec(old(self)@, input@),
    {
        match input {
            ArgInput::Number(Ok(depth)) => {
                self.set_with_max_depth(depth);
                StepEnd::Continue
            },
            ArgInput::Number(Err(msg)) => StepEnd::Fail(ConfigError::Parser(msg)),
            _ => StepEnd::Continue,
        }
    }

    fn apply_mode(&mut self, input: ArgInput) -> (r: StepEnd)
        ensures
            (r@, final(self)@) == mode_spec(old(self)@, input@),
    {
        match input {
            ArgInput::Required(Ok(word)) => match mode_word(word.as_str()) {
                Some(mode) => {
                    self.set_with_mode_format(mode);
                    StepEnd::Continue
                },
                None => StepEnd::Fail(ConfigError::InvalidMode(word)),
            },
            ArgInput::Required(Err(msg)) => StepEnd::Fail(ConfigError::Parser(msg)),
            _ => StepEnd::Continue,
        }
    }

    fn apply_time(&mut self, input: ArgInput) -> (r: StepEnd)
        ensures
            (r@, final(self)@) == time_spec(old(self)@, input@),
    {
        match input {
            ArgInput::Required(Ok(word)) => match time_word(word.as_str()) {
                Some(used) => {
                    self.set_with_timestamp_used(used);
                    StepEnd::Continue
                },
                None => StepEnd::Fail(ConfigError::InvalidTime(word)),
            },
            ArgInput::Required(Err(msg)) => StepEnd::Fail(ConfigError::Parser(msg)),
            _ => StepEnd::Continue,
        }
    }

    fn apply_long(&mut self, name: String, input: ArgInput) -> (r: StepEnd)
        ensures
            (r@, final(self)@) == long_option_spec(old(self)@, name@, input@),
    {
        match long_name(name.as_str()) {
            LongName::All => self.set_listing_all(true),
            LongName::AlmostAll => self.set_listing_all(false),
            LongName::AllocatedBytes => self.set_with_allocated_unit(AllocatedSizeBlocks::Raw),
            LongName::Color => {
                return self.apply_color(input);
            },
            LongName::Directory => self.set_without_dir_contents(),
            LongName::Classify => self.set_with_indicator_style(IndicatorStyle::Classify),
            LongName::Gitignore => self.set_with_git_ignore(),
            LongName::HumanReadable => self.set_with_size_format(SizeFormat::HumanReadable),
            LongName::DereferenceCommandLine => self.set_with_dereference(false),
            LongName::Help => {
                return StepEnd::Help;
            },
            LongName::Inode => self.set_with_inode(),
            LongName::IgnoreGlob => {
                return self.apply_ignore_glob(input);
            },
            LongName::Icons => {
                return self.apply_icons(input);
            },
            LongName::Iec => self.set_with_size_format(SizeFormat::Iec),
            LongName::IgnoreFile => self.set_with_ignore_file(),
            LongName::Kibibytes => self.set_with_allocated_unit(AllocatedSizeBlocks::Kibibytes),
            LongName::Dereference => self.set_with_dereference(true),
            LongName::MaxDepth => {
                return self.apply_max_depth(input);
            },
            LongName::Mode => {
                return self.apply_mode(input);
            },
            LongName::NumericUidGid => self.set_long_with_numeric_ids(),
            LongName::Reverse => self.set_with_reverse(),
            LongName::Recursive => self.set_with_recursive(),
            LongName::Size => self.set_with_allocated_size(),
            LongName::Si => self.set_with_size_format(SizeFormat::Si),
            LongName::Time => {
                return self.apply_time(input);
            },
            LongName::Version => {
                return StepEnd::Version;
            },
            LongName::Unknown => {
                return StepEnd::Fail(ConfigError::UnexpectedLong(name));
            },
        }
        StepEnd::Continue
    }

    /// Takes one argument: a positional argument is added to the paths to
    /// list; an option (with the value the parser gave for it) changes the
    /// configuration, asks for help or the version, or is refused.
    pub fn apply_arg(
        &mut self,
        arg: CliArg,
        input: ArgInput,
        path_args_vec: &mut Vec<std::path::PathBuf>,
    ) -> (r: StepEnd)
        ensures
            (r@, final(self)@, final(path_args_vec)@) == step_spec(old(self)@, old(path_args_vec)@, arg@, input@),
    {
        match arg {
            CliArg::Value(path) => {
                path_args_vec.push(path_from(path));
                StepEnd::Continue
            },
            CliArg::Short(c) => self.apply_short(c, input),
            CliArg::Long(name) => self.apply_long(name, input),
        }
    }
}

/// What an argument of `kind` takes from the parser in state `p` for its
/// value, and the parser's state afterwards.
pub open spec fn input_for(kind: InputKind, p: lexopt::Parser) -> (InputView, lexopt::Parser) {
    match kind {
        InputKind::Nothing => (InputView::Nothing, p),
        InputKind::Optional => (InputView::Optional(lexopt_optional_value(p).0), lexopt_optional_value(p).1),
        InputKind::Required => (InputView::Required(lexopt_value(p).0), lexopt_value(p).1),
        InputKind::Number => (InputView::Number(lexopt_number_value(p).0), lexopt_number_value(p).1),
    }
}

/// The message when more arguments come than can be counted.
pub open spec fn too_many_message() -> Seq<char> {
    "too many arguments"@
}

/// Taking at most `fuel` arguments from the parser in state `p`, from
/// configuration `c` and paths `paths`: each argument with the value it
/// needs, in turn, until they run out (`Done`), the parser refuses one, an
/// argument is refused, or help or the version is asked for; with the
/// configuration and the paths then. Running out of `fuel` is refused as
/// too many arguments.
pub open spec fn parse_run(
    p: lexopt::Parser,
    c: ConfigView,
    paths: Seq<std::path::PathBuf>,
    fuel: nat,
) -> (ParseEnd, ConfigView, Seq<std::path::PathBuf>)
    decreases fuel,
{
    if fuel == 0 {
        (ParseEnd::Fail(ErrorView::Parser(too_many_message())), c, paths)
    } else {
        match lexopt_next(p).0 {
            Err(m) => (ParseEnd::Fail(ErrorView::Parser(m)), c, paths),
            Ok(None) => (ParseEnd::Done, c, paths),
            Ok(Some(arg)) => {
                let (input, p2) = input_for(input_kind_spec(arg), lexopt_next(p).1);
                let (end, c2, paths2) = step_spec(c, paths, arg, input);
                match end {
                    EndView::Continue => parse_run(p2, c2, paths2, (fuel - 1) as nat),
                    EndView::Help => (ParseEnd::Help, c2, paths2),
                    EndView::Version => (ParseEnd::Version, c2, paths2),
                    EndView::Fail(e) => (ParseEnd::Fail(e), c2, paths2),
                }
            },
        }
    }
}

/// The outcome of parsing the command-line arguments `args` (the program
/// name left out) from configuration `c` and paths `paths`.
pub open spec fn parse_args_spec(args: Seq<Seq<char>>, c: ConfigView, paths: Seq<std::path::PathBuf>) -> (
    ParseEnd,
    ConfigView,
    Seq<std::path::PathBuf>,
) {
    parse_run(lexopt_from_args(args), c, paths, usize::MAX as nat)
}

impl Config {
    fn take_input(kind: InputKind, parser: &mut lexopt::Parser) -> (r: ArgInput)
        ensures
            (r@, *final(parser)) == input_for(kind, *old(parser)),
    {
        match kind {
            InputKind::Nothing => ArgInput::Nothing,
            InputKind::Optional => ArgInput::Optional(optional_value(parser)),
            InputKind::Required => ArgInput::Required(required_value(parser)),
            InputKind::Number => ArgInput::Number(number_value(parser)),
        }
    }

    /// Parses the command-line arguments `args` (the program name left
    /// out): each argument the parser gives is taken, with the value it
    /// needs, until they run out, one is refused, or help or the version is
    /// asked for.
    pub fn parse_args(
        &mut self,
        args: &Vec<String>,
        path_args_vec: &mut Vec<std::path::PathBuf>,
    ) -> (r: Result<ParseOutcome, ConfigError>)
        ensures
            (outcome_view(r), final(self)@, final(path_args_vec)@) == parse_args_spec(
                args_view(args@),
                old(self)@,
                old(path_args_vec)@,
            ),
    {
        let mut parser = new_parser(args);
        let ghost total = parse_run(parser, self@, path_args_vec@, usize::MAX as nat);
        let mut fuel: usize = usize::MAX;
        while fuel > 0
            invariant
                parse_run(parser, self@, path_args_vec@, fuel as nat) == total,
                total == parse_args_spec(args_view(args@), old(self)@, old(path_args_vec)@),
            decreases fuel,
        {
            let ghost p0 = parser;
            let ghost c0 = self@;
            let ghost paths0 = path_args_vec@;
            let next = next_arg(&mut parser);
            let arg = match next {
                Ok(Some(arg)) => arg,
                Ok(None) => {
                    return Ok(ParseOutcome::Done);
                },
                Err(msg) => {
                    return Err(ConfigError::Parser(msg));
                },
            };
            let ghost token = arg@;
            let input = Self::take_input(input_kind(&arg), &mut parser);
            let ghost input_view = input@;
            let end = self.apply_arg(arg, input, path_args_vec);
            proof {
                assert(lexopt_next(p0).0 == Ok::<Option<ArgToken>, Seq<char>>(Some(token)));
                assert((input_view, parser) == input_for(input_kind_spec(token), lexopt_next(p0).1));
                assert((end@, self@, path_args_vec@) == step_spec(c0, paths0, token, input_view));
            }
            match end {
                StepEnd::Continue => {},
                StepEnd::Help => {
                    return Ok(ParseOutcome::Help);
                },
                StepEnd::Version => {
                    return Ok(ParseOutcome::Version);
                },
                StepEnd::Fail(err) => {
                    return Err(err);
                },
            }
            fuel = fuel - 1;
        }
        let mut msg = String::new();
        string_push_str(&mut msg, "too many arguments");
        Err(ConfigError::Parser(msg))
    }
}

/// The part of the refusal of a `--color` or `--icons` value after the
/// value.
pub open spec fn when_refusal(option: Seq<char>) -> Seq<char> {
    "' is an invalid argument for '"@ + option + "'\npossible arguments are ['always', 'auto', 'never']"@
}

/// The message that tells why the arguments were refused.
pub open spec fn error_message(e: ErrorView) -> Seq<char> {
    match e {
        ErrorView::Parser(msg) => msg,
        ErrorView::InvalidColor(word) => seq!['\''] + word + when_refusal("--color"@),
        ErrorView::InvalidIcons(word) => seq!['\''] + word + when_refusal("--icons"@),
        ErrorView::InvalidMode(word) => seq!['\''] + word
            + "' is an invalid argument for '--mode'\npossible arguments are ['native', 'pwsh', 'rwx']"@,
        ErrorView::InvalidTime(word) => seq!['\''] + word
            + "' is an invalid argument for '--time'\npossible arguments are ['accessed', 'changed', 'created', 'modified', 'atime', 'ctime', 'btime', 'mtime']"@,
        ErrorView::UnexpectedShort(c) => "invalid option '-"@ + seq![c, '\''],
        ErrorView::UnexpectedLong(name) => "invalid option '--"@ + name + seq!['\''],
    }
}

impl ConfigError {
    /// The message that tells why the arguments were refused.
    pub fn message(&self) -> (r: String)
        ensures
            r@ == error_message(self@),
    {
        let mut msg = String::new();
        match self {
            ConfigError::Parser(m) => {
                string_push_str(&mut msg, m.as_str());
            },
            ConfigError::InvalidColor(word) => {
                string_push(&mut msg, '\'');
                string_push_str(&mut msg, word.as_str());
                string_push_str(&mut msg, "' is an invalid argument for '");
                string_push_str(&mut msg, "--color");
                string_push_str(&mut msg, "'\npossible arguments are ['always', 'auto', 'never']");
            },
            ConfigError::InvalidIcons(word) => {
                string_push(&mut msg, '\'');
                string_push_str(&mut msg, word.as_str());
                string_push_str(&mut msg, "' is an invalid argument for '");
                string_push_str(&mut msg, "--icons");
                string_push_str(&mut msg, "'\npossible arguments are ['always', 'auto', 'never']");
            },
            ConfigError::InvalidMode(word) => {
                string_push(&mut msg, '\'');
                string_push_str(&mut msg, word.as_str());
                string_push_str(
                    &mut msg,
                    "' is an invalid argument for '--mode'\npossible arguments are ['native', 'pwsh', 'rwx']",
                );
            },
            ConfigError::InvalidTime(word) => {
                string_push(&mut msg, '\'');
                string_push_str(&mut msg, word.as_str());
                string_push_str(
                    &mut msg,
                    "' is an invalid argument for '--time'\npossible arguments are ['accessed', 'changed', 'created', 'modified', 'atime', 'ctime', 'btime', 'mtime']",
                );
            },
            ConfigError::UnexpectedShort(c) => {
                string_push_str(&mut msg, "invalid option '-");
                string_push(&mut msg, *c);
                string_push(&mut msg, '\'');
            },
            ConfigError::UnexpectedLong(name) => {
                string_push_str(&mut msg, "invalid option '--");
                string_push_str(&mut msg, name.as_str());
                string_push(&mut msg, '\'');
            },
        }
        proof {
            assert(msg@ =~= error_message(self@));
        }
        msg
    }
}

/// The settings before the arguments are read: the defaults, with
/// colours, icons and the vertical layout when standard output is a
/// terminal.
#[verifier::opaque]
pub open spec fn start_view(is_atty: bool) -> ConfigView {
    if is_atty {
        ConfigView {
            is_atty: true,
            color: true,
            icons: IconTheme::default_icons_spec(),
            output_format: OutputFormat::Vertical,
            ..default_config_view()
        }
    } else {
        default_config_view()
    }
}

/// The colours of `LS_COLORS` (or of the default specification when it is
/// not set) and the default theme, put in the settings.
#[verifier::opaque]
pub open spec fn with_env_colors(c: ConfigView, ls_colors_env: Option<Seq<char>>) -> ConfigView {
    ConfigView {
        ls_colors: parse_spec(
            LsColors::new_spec(),
            match ls_colors_env {
                Some(s) => s,
                None => DEFAULT_LS_COLORS@,
            },
        ),
        theme: ThemeConfig::default_colors_spec(),
        ..c
    }
}

/// Whether symbolic links to directories named on the command line are
/// followed, put in the settings.
#[verifier::opaque]
pub open spec fn with_cmdline_symlink_dir(c: ConfigView, b: bool) -> ConfigView {
    ConfigView { dereference_cmdline_symlink_dir: b, ..c }
}

/// Symbolic links to directories named on the command line are followed
/// unless directories are listed as entries, or entries are classified, or
/// the long format is used (or when following was asked for).
pub open spec fn with_cmdline_dereference(c: ConfigView) -> ConfigView {
    with_cmdline_symlink_dir(
        c,
        c.dereference_cmdline_symlink_dir || !(!c.list_dir || c.indicator_style
            == IndicatorStyle::Classify || c.output_format == OutputFormat::Long),
    )
}

/// The settings once the arguments are read: with colours on, the colours
/// of `LS_COLORS` and the default theme; then the rule for symbolic links
/// named on the command line.
pub open spec fn finished_view(c: ConfigView, ls_colors_env: Option<Seq<char>>) -> ConfigView {
    with_cmdline_dereference(
        if c.color {
            with_env_colors(c, ls_colors_env)
        } else {
            c
        },
    )
}

/// Why start-up stops before listing.
pub enum InitStop {
    /// `--help` was asked for.
    Help,
    /// `--version` was asked for.
    Version,
    /// The arguments were refused.
    Error(ConfigError),
}

/// What `<=` on two paths (`PathBuf`'s `Ord`, component by component)
/// gives.
pub uninterp spec fn path_le(a: std::path::PathBuf, b: std::path::PathBuf) -> bool;

/// Whether each path is at most (`<=`) every path after it.
pub open spec fn paths_sorted(paths: Seq<std::path::PathBuf>) -> bool {
    forall|i: int, j: int| 0 <= i < j < paths.len() ==> path_le(#[trigger] paths[i], #[trigger] paths[j])
}

/// `<[PathBuf]>::sort`: sorts the paths in ascending order (by `Ord`),
/// keeping each of them.
#[verifier::external_body]
fn sort_paths(paths: &mut Vec<std::path::PathBuf>)
    ensures
        final(paths)@.to_multiset() == old(paths)@.to_multiset(),
        forall|i: int, j: int|
            0 <= i < j < final(paths)@.len() ==> path_le(#[trigger] final(paths)@[i], #[trigger] final(paths)@[j]),
{
    paths.sort();
}

impl Config {
    /// The settings before the arguments are read.
    #[verifier::spinoff_prover]
    pub fn for_terminal(is_atty: bool) -> (r: Config)
        ensures
            r@ == start_view(is_atty),
    {
        let mut config = Config::default();
        if is_atty {
            config.is_atty = true;
            config.color = true;
            config.icons = IconTheme::with_default_icons();
            config.output_format = OutputFormat::Vertical;
        }
        proof {
            reveal(start_view);
        }
        config
    }

    #[verifier::spinoff_prover]
    fn set_colors(&mut self, ls_colors_env: Option<&str>)
        ensures
            final(self)@ == with_env_colors(
                old(self)@,
                match ls_colors_env {
                    Some(s) => Some(s@),
                    None => None,
                },
            ),
    {
        self.ls_colors = LsColors::with_colors(ls_colors_env);
        self.theme = ThemeConfig::with_default_colors();
        proof {
            reveal(with_env_colors);
        }
    }

    #[verifier::spinoff_prover]
    fn set_cmdline_symlink_dir(&mut self, b: bool)
        ensures
            final(self)@ == with_cmdline_symlink_dir(old(self)@, b),
    {
        self.dereference_cmdline_symlink_dir = b;
        proof {
            reveal(with_cmdline_symlink_dir);
        }
    }

    /// Completes the settings once the arguments are read; `ls_colors_env`
    /// is the value of `LS_COLORS`, if set.
    pub fn finish(&mut self, ls_colors_env: Option<&str>)
        ensures
            final(self)@ == finished_view(
                old(self)@,
                match ls_colors_env {
                    Some(s) => Some(s@),
                    None => None,
                },
            ),
    {
        if self.color {
            self.set_colors(ls_colors_env);
        }
        let follow = self.dereference_cmdline_symlink_dir || !(!self.list_dir
            || self.indicator_style.is_classify() || self.output_format.is_long());
        self.set_cmdline_symlink_dir(follow);
    }

    /// The settings and the paths to list, from whether standard output is
    /// a terminal, the command-line arguments `args` (the program name left
    /// out) and `LS_COLORS`; the paths are sorted. Stops for `--help`, `--version` and refused
    /// arguments.
    pub fn init(
        is_atty: bool,
        args: &Vec<String>,
        ls_colors_env: Option<&str>,
    ) -> (r: Result<(Config, Vec<std::path::PathBuf>), InitStop>)
        ensures
            ({
                let run = parse_args_spec(args_view(args@), start_view(is_atty), Seq::empty());
                match r {
                    Ok((config, paths)) => run.0 == ParseEnd::Done && config@ == finished_view(
                        run.1,
                        match ls_colors_env {
                            Some(s) => Some(s@),
                            None => None,
                        },
                    ) && paths@.to_multiset() == run.2.to_multiset() && paths_sorted(paths@),
                    Err(InitStop::Help) => run.0 == ParseEnd::Help,
                    Err(InitStop::Version) => run.0 == ParseEnd::Version,
                    Err(InitStop::Error(e)) => run.0 == ParseEnd::Fail(e@),
                }
            }),
    {
        let mut config = Config::for_terminal(is_atty);
        let mut path_args_vec: Vec<std::path::PathBuf> = Vec::new();
        let outcome = config.parse_args(args, &mut path_args_vec);
        match outcome {
            Ok(ParseOutcome::Done) => {},
            Ok(ParseOutcome::Help) => {
                return Err(InitStop::Help);
            },
            Ok(ParseOutcome::Version) => {
                return Err(InitStop::Version);
            },
            Err(err) => {
                return Err(InitStop::Error(err));
            },
        }
        config.finish(ls_colors_env);
        sort_paths(&mut path_args_vec);
        Ok((config, path_args_vec))
    }
}

} // verus!
