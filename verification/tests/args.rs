use std::path::PathBuf;

use nls_ls::args::{ArgInput, CliArg, ConfigError, InitStop, ParseOutcome, StepEnd};
use nls_ls::config::{
    AllocatedSizeBlocks, Config, IndicatorStyle, ModeFormat, OutputFormat, SizeFormat, SortingOrder,
    TimestampUsed,
};

fn init(is_atty: bool, args: &[&str]) -> Result<(Config, Vec<PathBuf>), InitStop> {
    let args: Vec<String> = args.iter().map(|a| a.to_string()).collect();
    Config::init(is_atty, &args, None)
}

fn init_ok(is_atty: bool, args: &[&str]) -> (Config, Vec<PathBuf>) {
    match init(is_atty, args) {
        Ok(result) => result,
        Err(InitStop::Help) => panic!("unexpected help"),
        Err(InitStop::Version) => panic!("unexpected version"),
        Err(InitStop::Error(err)) => panic!("unexpected error: {}", err.message()),
    }
}

fn init_error(is_atty: bool, args: &[&str]) -> String {
    match init(is_atty, args) {
        Err(InitStop::Error(err)) => err.message(),
        _ => panic!("the arguments were expected to be refused"),
    }
}

#[test]
fn test_init_defaults_when_not_a_terminal() {
    let (config, paths) = init_ok(false, &[]);
    assert!(paths.is_empty());
    assert!(!config.is_atty);
    assert!(!config.color);
    assert_eq!(config.output_format, OutputFormat::SingleColumn);
    assert!(config.ignore_hidden);
    assert!(config.list_dir);
    assert!(config.list_owner && config.list_group);
    assert_eq!(config.sorting_order, SortingOrder::FileName);
    assert_eq!(config.ls_colors.dir_style(), None);
    assert_eq!(config.icons.dir_icon("src"), None);
    // Links to directories named on the command line are followed.
    assert!(config.dereference_cmdline_symlink_dir);
}

#[test]
fn test_init_on_a_terminal_uses_colors_icons_and_grid() {
    let (config, _) = init_ok(true, &[]);
    assert!(config.is_atty);
    assert!(config.color);
    assert_eq!(config.output_format, OutputFormat::Vertical);
    assert_eq!(config.ls_colors.dir_style(), Some("01;34"));
    assert_eq!(config.theme.timestamp_style(), Some("33"));
    assert!(config.icons.dir_icon("src").is_some());
}

#[test]
fn test_init_ls_colors_from_environment_value() {
    let (config, _) = match Config::init(true, &Vec::new(), Some("di=01;31:*.rs=33")) {
        Ok(result) => result,
        Err(_) => panic!("refused"),
    };
    assert_eq!(config.ls_colors.dir_style(), Some("01;31"));
    assert_eq!(config.ls_colors.extension_style("rs"), Some("33"));
    assert_eq!(config.ls_colors.file_style(), None);
}

#[test]
fn test_parse_all_and_almost_all() {
    let (config, _) = init_ok(false, &["-a"]);
    assert!(config.list_current_and_parent_dirs);
    assert!(!config.ignore_hidden);

    let (config, _) = init_ok(false, &["-a", "-A"]);
    assert!(!config.list_current_and_parent_dirs);
    assert!(!config.ignore_hidden);
}

#[test]
fn test_parse_long_format_variants() {
    let (config, _) = init_ok(false, &["-l"]);
    assert_eq!(config.output_format, OutputFormat::Long);
    assert!(!config.dereference_cmdline_symlink_dir);

    let (config, _) = init_ok(false, &["-g"]);
    assert_eq!(config.output_format, OutputFormat::Long);
    assert!(!config.list_owner && config.list_group);

    let (config, _) = init_ok(false, &["-o"]);
    assert!(config.list_owner && !config.list_group);

    let (config, _) = init_ok(false, &["-n"]);
    assert!(config.numeric_uid_gid);
    assert_eq!(config.output_format, OutputFormat::Long);

    // The last layout option wins.
    let (config, _) = init_ok(false, &["-l", "-1"]);
    assert_eq!(config.output_format, OutputFormat::SingleColumn);
    let (config, _) = init_ok(false, &["-C", "-x"]);
    assert_eq!(config.output_format, OutputFormat::Across);
}

#[test]
fn test_parse_color_words() {
    let (config, _) = init_ok(true, &["--color=never"]);
    assert!(!config.color);
    assert_eq!(config.ls_colors.dir_style(), None);

    let (config, _) = init_ok(false, &["--color=always"]);
    assert!(config.color);
    assert_eq!(config.ls_colors.dir_style(), Some("01;34"));

    let (config, _) = init_ok(false, &["--color=auto"]);
    assert!(!config.color);

    let (config, _) = init_ok(false, &["--color"]);
    assert!(config.color);

    assert_eq!(
        init_error(false, &["--color=sometimes"]),
        "'sometimes' is an invalid argument for '--color'\npossible arguments are ['always', 'auto', 'never']"
    );
}

#[test]
fn test_parse_icons_words() {
    let (config, _) = init_ok(true, &["--icons=never"]);
    assert_eq!(config.icons.dir_icon("src"), None);
    let (config, _) = init_ok(false, &["--icons"]);
    assert!(config.icons.dir_icon("src").is_some());
    assert_eq!(
        init_error(false, &["--icons=maybe"]),
        "'maybe' is an invalid argument for '--icons'\npossible arguments are ['always', 'auto', 'never']"
    );
}

#[test]
fn test_parse_time_words() {
    let cases = [
        ("accessed", TimestampUsed::Accessed),
        ("atime", TimestampUsed::Accessed),
        ("changed", TimestampUsed::Changed),
        ("ctime", TimestampUsed::Changed),
        ("created", TimestampUsed::Created),
        ("btime", TimestampUsed::Created),
        ("modified", TimestampUsed::Modified),
        ("mtime", TimestampUsed::Modified),
    ];
    for (word, used) in cases {
        let (config, _) = init_ok(false, &["--time", word]);
        assert_eq!(config.timestamp_used, used);
    }
    let (config, _) = init_ok(false, &["-u"]);
    assert_eq!(config.timestamp_used, TimestampUsed::Accessed);
    let (config, _) = init_ok(false, &["-c"]);
    assert_eq!(config.timestamp_used, TimestampUsed::Changed);
    assert_eq!(
        init_error(false, &["--time", "later"]),
        "'later' is an invalid argument for '--time'\npossible arguments are ['accessed', 'changed', 'created', 'modified', 'atime', 'ctime', 'btime', 'mtime']"
    );
}

#[test]
fn test_parse_mode_words() {
    let (config, _) = init_ok(false, &["--mode", "pwsh"]);
    assert_eq!(config.mode_format, ModeFormat::Pwsh);
    let (config, _) = init_ok(false, &["--mode=pwsh", "--mode=native"]);
    assert_eq!(config.mode_format, ModeFormat::Rwx);
    assert_eq!(
        init_error(false, &["--mode", "octal"]),
        "'octal' is an invalid argument for '--mode'\npossible arguments are ['native', 'pwsh', 'rwx']"
    );
}

#[test]
fn test_parse_sizes_and_blocks() {
    let (config, _) = init_ok(false, &["-h"]);
    assert_eq!(config.size_format, SizeFormat::HumanReadable);
    assert_eq!(config.allocated_size_blocks, AllocatedSizeBlocks::Raw);

    let (config, _) = init_ok(false, &["-k"]);
    assert_eq!(config.allocated_size_blocks, AllocatedSizeBlocks::Kibibytes);

    // Kibibytes only apply while sizes are raw numbers.
    let (config, _) = init_ok(false, &["--si", "-k"]);
    assert_eq!(config.size_format, SizeFormat::Si);
    assert_eq!(config.allocated_size_blocks, AllocatedSizeBlocks::Raw);

    let (config, _) = init_ok(false, &["-k", "--allocated-bytes"]);
    assert_eq!(config.allocated_size_blocks, AllocatedSizeBlocks::Raw);

    let (config, _) = init_ok(false, &["--iec", "-s"]);
    assert_eq!(config.size_format, SizeFormat::Iec);
    assert!(config.list_allocated_size);
}

#[test]
fn test_parse_sorting_and_traversal() {
    let (config, _) = init_ok(false, &["-S", "-r", "-R", "--max-depth", "3"]);
    assert_eq!(config.sorting_order, SortingOrder::Size);
    assert!(config.reverse);
    assert!(config.recursive);
    assert_eq!(config.max_depth, Some(3));

    let (config, _) = init_ok(false, &["-t"]);
    assert_eq!(config.sorting_order, SortingOrder::Timestamp);
}

#[test]
fn test_parse_dereference_and_indicators() {
    let (config, _) = init_ok(false, &["-L"]);
    assert!(config.dereference && config.dereference_cmdline_symlink && config.dereference_cmdline_symlink_dir);

    let (config, _) = init_ok(false, &["-L", "-H"]);
    assert!(!config.dereference);
    assert!(config.dereference_cmdline_symlink && config.dereference_cmdline_symlink_dir);

    let (config, _) = init_ok(false, &["-F"]);
    assert_eq!(config.indicator_style, IndicatorStyle::Classify);
    assert!(!config.dereference_cmdline_symlink_dir);

    let (config, _) = init_ok(false, &["-p", "-d"]);
    assert_eq!(config.indicator_style, IndicatorStyle::Slash);
    assert!(!config.list_dir);
    assert!(!config.dereference_cmdline_symlink_dir);
}

#[test]
fn test_parse_ignore_options() {
    let (config, _) = init_ok(false, &["-I", "*.rs", "--ignore-glob=target", "--gitignore", "--ignore-file"]);
    assert_eq!(config.ignore_glob_vec, vec![String::from("!*.rs"), String::from("!target")]);
    assert!(config.git_ignore);
    assert!(config.ignore_file);
}

#[test]
fn test_paths_are_collected_and_sorted() {
    let (_, paths) = init_ok(false, &["src", "-l", "Cargo.toml", "build.rs"]);
    assert_eq!(paths, vec![PathBuf::from("Cargo.toml"), PathBuf::from("build.rs"), PathBuf::from("src")]);
}

#[test]
fn test_help_and_version_stop() {
    assert!(matches!(init(false, &["-l", "--help", "--bogus"]), Err(InitStop::Help)));
    assert!(matches!(init(false, &["--version"]), Err(InitStop::Version)));
    assert_eq!(init_error(false, &["--bogus", "--help"]), "invalid option '--bogus'");
}

#[test]
fn test_unexpected_options() {
    assert_eq!(init_error(false, &["-z"]), "invalid option '-z'");
    assert_eq!(init_error(false, &["--x"]), "invalid option '--x'");
}

#[test]
fn test_parser_errors() {
    assert_eq!(init_error(false, &["--max-depth", "x"]), "cannot parse argument \"x\": invalid digit found in string");
    assert_eq!(init_error(false, &["--time"]), "missing argument for option '--time'");
    assert_eq!(init_error(false, &["--all=yes"]), "unexpected argument for option '--all': \"yes\"");
}

#[test]
fn test_apply_arg_steps() {
    let mut config = Config::default();
    let mut paths: Vec<PathBuf> = Vec::new();
    assert!(matches!(config.apply_arg(CliArg::Short('S'), ArgInput::Nothing, &mut paths), StepEnd::Continue));
    assert_eq!(config.sorting_order, SortingOrder::Size);
    assert!(matches!(
        config.apply_arg(CliArg::Value(String::from("a")), ArgInput::Nothing, &mut paths),
        StepEnd::Continue
    ));
    assert_eq!(paths, vec![PathBuf::from("a")]);
    assert!(matches!(
        config.apply_arg(CliArg::Long(String::from("help")), ArgInput::Nothing, &mut paths),
        StepEnd::Help
    ));
    match config.apply_arg(CliArg::Long(String::from("color")), ArgInput::Optional(Some(String::from("x"))), &mut paths) {
        StepEnd::Fail(ConfigError::InvalidColor(word)) => assert_eq!(word, "x"),
        _ => panic!("expected a refused colour"),
    }
}

#[test]
fn test_parse_args_outcome() {
    let mut config = Config::default();
    let mut paths: Vec<PathBuf> = Vec::new();
    let args: Vec<String> = ["-l", "b", "a"].iter().map(|a| a.to_string()).collect();
    assert!(matches!(config.parse_args(&args, &mut paths), Ok(ParseOutcome::Done)));
    assert_eq!(config.output_format, OutputFormat::Long);
    assert_eq!(paths, vec![PathBuf::from("b"), PathBuf::from("a")]);
}

#[test]
fn test_short_and_long_spellings_agree() {
    let pairs = [
        ("-a", "--all"),
        ("-A", "--almost-all"),
        ("-d", "--directory"),
        ("-F", "--classify"),
        ("-h", "--human-readable"),
        ("-H", "--dereference-command-line"),
        ("-i", "--inode"),
        ("-k", "--kibibytes"),
        ("-L", "--dereference"),
        ("-n", "--numeric-uid-gid"),
        ("-r", "--reverse"),
        ("-R", "--recursive"),
        ("-s", "--size"),
    ];
    for (short, long) in pairs {
        let (a, _) = init_ok(false, &[short]);
        let (b, _) = init_ok(false, &[long]);
        assert_eq!(a.list_current_and_parent_dirs, b.list_current_and_parent_dirs, "{}", long);
        assert_eq!(a.ignore_hidden, b.ignore_hidden, "{}", long);
        assert_eq!(a.list_dir, b.list_dir, "{}", long);
        assert_eq!(a.indicator_style, b.indicator_style, "{}", long);
        assert_eq!(a.size_format, b.size_format, "{}", long);
        assert_eq!(a.allocated_size_blocks, b.allocated_size_blocks, "{}", long);
        assert_eq!(a.dereference, b.dereference, "{}", long);
        assert_eq!(a.dereference_cmdline_symlink, b.dereference_cmdline_symlink, "{}", long);
        assert_eq!(a.list_inode, b.list_inode, "{}", long);
        assert_eq!(a.numeric_uid_gid, b.numeric_uid_gid, "{}", long);
        assert_eq!(a.output_format, b.output_format, "{}", long);
        assert_eq!(a.reverse, b.reverse, "{}", long);
        assert_eq!(a.recursive, b.recursive, "{}", long);
        assert_eq!(a.list_allocated_size, b.list_allocated_size, "{}", long);
    }
    let (a, _) = init_ok(false, &["-I", "x"]);
    let (b, _) = init_ok(false, &["--ignore-glob", "x"]);
    assert_eq!(a.ignore_glob_vec, b.ignore_glob_vec);
}

#[test]
fn test_parse_args_clusters_and_separator() {
    let (config, paths) = init_ok(false, &["-lr", "--", "-a", "x"]);
    assert_eq!(config.output_format, OutputFormat::Long);
    assert!(config.reverse);
    assert!(config.ignore_hidden);
    assert_eq!(paths, vec![PathBuf::from("-a"), PathBuf::from("x")]);

    let (config, _) = init_ok(false, &["-Ifoo", "--time=ctime"]);
    assert_eq!(config.ignore_glob_vec, vec![String::from("!foo")]);
    assert_eq!(config.timestamp_used, TimestampUsed::Changed);
}

#[test]
fn test_paths_sorted_by_components() {
    let (_, paths) = init_ok(false, &["a-b", "a/b", "a"]);
    assert_eq!(paths, vec![PathBuf::from("a"), PathBuf::from("a/b"), PathBuf::from("a-b")]);
}
