use nls_ls::config::{Config, IndicatorStyle, OutputFormat};
use nls_ls::entry::{FileMetadata, SymlinkTarget};
use nls_ls::ls_colors::LsColors;
use nls_ls::os::unix::sys_prelude::{
    S_IFBLK, S_IFCHR, S_IFDIR, S_IFIFO, S_IFLNK, S_IFREG, S_IFSOCK, S_ISGID, S_ISUID, S_ISVTX,
    S_IWOTH, S_IXGRP, S_IXOTH, S_IXUSR,
};
use nls_ls::output::display_cell::DisplayCell;
use nls_ls::output::format_filename::format_filename;

const TMP_DIR: &str = "/tmp/nls-format-filename";

fn colors() -> LsColors {
    LsColors::with_colors(None)
}

fn metadata(mode: u32, nlink: u64) -> FileMetadata {
    FileMetadata {
        mode: mode,
        nlink: nlink,
        uid: 1000,
        gid: 1000,
        len: 0,
        blocks: 0,
        ino: 42,
        rdev: 0,
        atime: 0,
        mtime: 0,
        ctime: 0,
        created: None,
    }
}

fn width_of(s: &str) -> usize {
    DisplayCell::from_str_with_style(s, None).width
}

fn internal_test_format_filename_common(
    path_string: &str,
    metadata: &FileMetadata,
    indicator_style: IndicatorStyle,
    indicator_symbol: char,
    correct_filename_has_indicator: bool,
    ansi_style_str: Option<&str>,
) {
    let mut config = Config::default();
    config.indicator_style = indicator_style;

    let filename_cell = format_filename(path_string, metadata, &SymlinkTarget::Unreadable, &config);
    let mut correct_filename_cell = DisplayCell::from(String::from(path_string));
    if correct_filename_has_indicator {
        correct_filename_cell.push_char(indicator_symbol);
    }
    assert_eq!(filename_cell, correct_filename_cell);

    config.ls_colors = colors();
    let filename_cell_with_color =
        format_filename(path_string, metadata, &SymlinkTarget::Unreadable, &config);
    let mut correct_filename_cell_with_color = match &ansi_style_str {
        Some(ansi_style_str) => {
            DisplayCell::from(format!("\x1b[{}m{}\x1b[0m", ansi_style_str, path_string))
        }
        None => DisplayCell::from(String::from(path_string)),
    };

    correct_filename_cell_with_color.width = width_of(path_string);
    if correct_filename_has_indicator {
        correct_filename_cell_with_color.push_char(indicator_symbol);
    }
    assert_eq!(filename_cell_with_color, correct_filename_cell_with_color);
}

fn internal_test_format_filename_file(
    file_name: &str,
    mode: Option<u32>,
    indicator_style: IndicatorStyle,
    correct_filename_has_indicator: bool,
    ansi_style_str: Option<&str>,
) {
    let path_string = format!("{}/{}", TMP_DIR, file_name);
    let file_metadata = metadata(S_IFREG | mode.unwrap_or(0o644), 1);
    internal_test_format_filename_common(
        &path_string,
        &file_metadata,
        indicator_style,
        IndicatorStyle::EXEC,
        correct_filename_has_indicator,
        ansi_style_str,
    );
}

fn internal_test_format_filename_multiple_hard_links_file(
    indicator_style: IndicatorStyle,
    correct_filename_has_indicator: bool,
    ansi_style_str: Option<&str>,
) {
    let path_string = format!("{}/{}", TMP_DIR, "file");
    let file_metadata = metadata(S_IFREG | 0o644, 2);
    internal_test_format_filename_common(
        &path_string,
        &file_metadata,
        indicator_style,
        IndicatorStyle::EXEC,
        correct_filename_has_indicator,
        ansi_style_str,
    );
}

fn internal_test_format_filename_dir(
    mode: Option<u32>,
    indicator_style: IndicatorStyle,
    correct_filename_has_indicator: bool,
    ansi_style_str: Option<&str>,
) {
    let dir_metadata = metadata(S_IFDIR | mode.unwrap_or(0o700), 2);
    internal_test_format_filename_common(
        TMP_DIR,
        &dir_metadata,
        indicator_style,
        IndicatorStyle::DIR,
        correct_filename_has_indicator,
        ansi_style_str,
    );
}

fn internal_test_format_filename_symlink_non_long_format(
    indicator_style: IndicatorStyle,
    correct_filename_has_indicator: bool,
    ansi_style_str: Option<&str>,
) {
    let symlink_path_string = format!("{}/{}", TMP_DIR, "symlink_file");
    let symlink_metadata = metadata(S_IFLNK | 0o777, 1);
    internal_test_format_filename_common(
        &symlink_path_string,
        &symlink_metadata,
        indicator_style,
        IndicatorStyle::SYMLINK,
        correct_filename_has_indicator,
        ansi_style_str,
    );
}

fn internal_test_format_filename_symlink_long_format(
    indicator_style: IndicatorStyle,
    correct_filename_has_indicator: bool,
    ansi_style_str: Option<&str>,
) {
    let target_path_string = String::from("/tmp/nls-format-filename-target");
    let target_metadata = metadata(S_IFDIR | 0o700, 2);
    let symlink_path_string = format!("{}/{}", TMP_DIR, "symlink_file");
    let symlink_metadata = metadata(S_IFLNK | 0o777, 1);
    let target = SymlinkTarget::Resolved(target_path_string.clone(), target_metadata);

    let mut config = Config::default();
    config.indicator_style = indicator_style;
    config.output_format = OutputFormat::Long;

    let filename_cell = format_filename(&symlink_path_string, &symlink_metadata, &target, &config);
    let mut correct_filename_cell = DisplayCell::from(symlink_path_string.clone());
    let target_name_cell =
        format_filename(&target_path_string, &target_metadata, &SymlinkTarget::Unreadable, &config);
    correct_filename_cell.push_str(" -> ");
    correct_filename_cell.append(target_name_cell);

    assert_eq!(filename_cell, correct_filename_cell);

    config.ls_colors = colors();
    let filename_cell_with_color =
        format_filename(&symlink_path_string, &symlink_metadata, &target, &config);
    let mut correct_filename_cell_with_color = match &ansi_style_str {
        Some(ansi_style_str) => DisplayCell::from(format!(
            "\x1b[{}m{}\x1b[0m",
            ansi_style_str, symlink_path_string
        )),
        None => DisplayCell::from(symlink_path_string.clone()),
    };
    let target_name_cell =
        format_filename(&target_path_string, &target_metadata, &SymlinkTarget::Unreadable, &config);
    correct_filename_cell_with_color.push_str(" -> ");
    correct_filename_cell_with_color.append(target_name_cell);

    correct_filename_cell_with_color.width = width_of(&symlink_path_string)
        + 4
        + width_of(&target_path_string)
        + correct_filename_has_indicator as usize;
    assert_eq!(filename_cell_with_color, correct_filename_cell_with_color);
}

fn internal_test_format_filename_block_device(
    indicator_style: IndicatorStyle,
    ansi_style_str: Option<&str>,
) {
    let device_metadata = metadata(S_IFBLK | 0o660, 1);
    internal_test_format_filename_common(
        "/dev/sda",
        &device_metadata,
        indicator_style,
        '\0',
        false,
        ansi_style_str,
    );
}

fn internal_test_format_filename_char_device(
    indicator_style: IndicatorStyle,
    ansi_style_str: Option<&str>,
) {
    let device_metadata = metadata(S_IFCHR | 0o666, 1);
    internal_test_format_filename_common(
        "/dev/null",
        &device_metadata,
        indicator_style,
        '\0',
        false,
        ansi_style_str,
    );
}

fn internal_test_format_filename_fifo(
    indicator_style: IndicatorStyle,
    correct_filename_has_indicator: bool,
    ansi_style_str: Option<&str>,
) {
    let path_string = format!("{}/{}", TMP_DIR, "fifo_file");
    let fifo_metadata = metadata(S_IFIFO | 0o644, 1);
    internal_test_format_filename_common(
        &path_string,
        &fifo_metadata,
        indicator_style,
        IndicatorStyle::FIFO,
        correct_filename_has_indicator,
        ansi_style_str,
    );
}

fn internal_test_format_filename_socket(
    indicator_style: IndicatorStyle,
    correct_filename_has_indicator: bool,
    ansi_style_str: Option<&str>,
) {
    let path_string = format!("{}/{}", TMP_DIR, "socket_file");
    let socket_metadata = metadata(S_IFSOCK | 0o755, 1);
    internal_test_format_filename_common(
        &path_string,
        &socket_metadata,
        indicator_style,
        IndicatorStyle::SOCKET,
        correct_filename_has_indicator,
        ansi_style_str,
    );
}

#[test]
fn test_format_filename_regular_file() {
    let ls_colors = colors();
    let ansi_style_str = ls_colors.file_style();
    let file_name = "file";

    internal_test_format_filename_file(
        file_name,
        None,
        IndicatorStyle::Never,
        false,
        ansi_style_str,
    );
    internal_test_format_filename_file(
        file_name,
        None,
        IndicatorStyle::Slash,
        false,
        ansi_style_str,
    );
    internal_test_format_filename_file(
        file_name,
        None,
        IndicatorStyle::Classify,
        false,
        ansi_style_str,
    );
}

#[test]
fn test_format_filename_file_with_extension() {
    let ls_colors = colors();
    let ansi_style_str = ls_colors.extension_style("jpeg");
    let file_name = "file.jpeg";

    internal_test_format_filename_file(
        file_name,
        None,
        IndicatorStyle::Never,
        false,
        ansi_style_str,
    );
    internal_test_format_filename_file(
        file_name,
        None,
        IndicatorStyle::Slash,
        false,
        ansi_style_str,
    );
    internal_test_format_filename_file(
        file_name,
        None,
        IndicatorStyle::Classify,
        false,
        ansi_style_str,
    );
}

#[test]
fn test_format_filename_setuid_file() {
    let ls_colors = colors();
    let ansi_style_str = ls_colors.setuid_style();
    let mode: Option<u32> = Some(0o644 | S_ISUID);
    let file_name = "file";

    internal_test_format_filename_file(
        file_name,
        mode,
        IndicatorStyle::Never,
        false,
        ansi_style_str,
    );
    internal_test_format_filename_file(
        file_name,
        mode,
        IndicatorStyle::Slash,
        false,
        ansi_style_str,
    );
    internal_test_format_filename_file(
        file_name,
        mode,
        IndicatorStyle::Classify,
        false,
        ansi_style_str,
    );
}

#[test]
fn test_format_filename_setgid_file() {
    let ls_colors = colors();
    let ansi_style_str = ls_colors.setgid_style();
    let mode: Option<u32> = Some(0o644 | S_ISGID);
    let file_name = "file";

    internal_test_format_filename_file(
        file_name,
        mode,
        IndicatorStyle::Never,
        false,
        ansi_style_str,
    );
    internal_test_format_filename_file(
        file_name,
        mode,
        IndicatorStyle::Slash,
        false,
        ansi_style_str,
    );
    internal_test_format_filename_file(
        file_name,
        mode,
        IndicatorStyle::Classify,
        false,
        ansi_style_str,
    );
}

#[test]
fn test_format_filename_multiple_hard_links_file() {
    let ls_colors = colors();
    let ansi_style_str = ls_colors.multiple_hard_links_style();

    internal_test_format_filename_multiple_hard_links_file(IndicatorStyle::Never, false, ansi_style_str);
    internal_test_format_filename_multiple_hard_links_file(IndicatorStyle::Slash, false, ansi_style_str);
    internal_test_format_filename_multiple_hard_links_file(IndicatorStyle::Classify, false, ansi_style_str);
}

#[test]
fn test_test_format_filename_executable_regular_file() {
    let ls_colors = colors();
    let ansi_style_str = ls_colors.exec_style();
    let default_mode: u32 = 0o644;
    let file_name = "file";

    let mode: Option<u32> = Some(default_mode | S_IXUSR);
    internal_test_format_filename_file(
        file_name,
        mode,
        IndicatorStyle::Never,
        false,
        ansi_style_str,
    );
    internal_test_format_filename_file(
        file_name,
        mode,
        IndicatorStyle::Slash,
        false,
        ansi_style_str,
    );
    internal_test_format_filename_file(
        file_name,
        mode,
        IndicatorStyle::Classify,
        true,
        ansi_style_str,
    );

    let mode: Option<u32> = Some(default_mode | S_IXGRP);
    internal_test_format_filename_file(
        file_name,
        mode,
        IndicatorStyle::Never,
        false,
        ansi_style_str,
    );
    internal_test_format_filename_file(
        file_name,
        mode,
        IndicatorStyle::Slash,
        false,
        ansi_style_str,
    );
    internal_test_format_filename_file(
        file_name,
        mode,
        IndicatorStyle::Classify,
        true,
        ansi_style_str,
    );

    let mode: Option<u32> = Some(default_mode | S_IXOTH);
    internal_test_format_filename_file(
        file_name,
        mode,
        IndicatorStyle::Never,
        false,
        ansi_style_str,
    );
    internal_test_format_filename_file(
        file_name,
        mode,
        IndicatorStyle::Slash,
        false,
        ansi_style_str,
    );
    internal_test_format_filename_file(
        file_name,
        mode,
        IndicatorStyle::Classify,
        true,
        ansi_style_str,
    );

    let mode: Option<u32> = Some(default_mode | S_IXUSR | S_IXGRP);
    internal_test_format_filename_file(
        file_name,
        mode,
        IndicatorStyle::Never,
        false,
        ansi_style_str,
    );
    internal_test_format_filename_file(
        file_name,
        mode,
        IndicatorStyle::Slash,
        false,
        ansi_style_str,
    );
    internal_test_format_filename_file(
        file_name,
        mode,
        IndicatorStyle::Classify,
        true,
        ansi_style_str,
    );

    let mode: Option<u32> = Some(default_mode | S_IXUSR | S_IXOTH);
    internal_test_format_filename_file(
        file_name,
        mode,
        IndicatorStyle::Never,
        false,
        ansi_style_str,
    );
    internal_test_format_filename_file(
        file_name,
        mode,
        IndicatorStyle::Slash,
        false,
        ansi_style_str,
    );
    internal_test_format_filename_file(
        file_name,
        mode,
        IndicatorStyle::Classify,
        true,
        ansi_style_str,
    );

    let mode: Option<u32> = Some(default_mode | S_IXGRP | S_IXOTH);
    internal_test_format_filename_file(
        file_name,
        mode,
        IndicatorStyle::Never,
        false,
        ansi_style_str,
    );
    internal_test_format_filename_file(
        file_name,
        mode,
        IndicatorStyle::Slash,
        false,
        ansi_style_str,
    );
    internal_test_format_filename_file(
        file_name,
        mode,
        IndicatorStyle::Classify,
        true,
        ansi_style_str,
    );

    let mode: Option<u32> = Some(default_mode | S_IXUSR | S_IXGRP | S_IXOTH);
    internal_test_format_filename_file(
        file_name,
        mode,
        IndicatorStyle::Never,
        false,
        ansi_style_str,
    );
    internal_test_format_filename_file(
        file_name,
        mode,
        IndicatorStyle::Slash,
        false,
        ansi_style_str,
    );
    internal_test_format_filename_file(
        file_name,
        mode,
        IndicatorStyle::Classify,
        true,
        ansi_style_str,
    );
}

#[test]
fn test_format_filename_executable_setuid_file() {
    let ls_colors = colors();
    let ansi_style_str = ls_colors.setuid_style();
    let default_mode: u32 = 0o644 | S_ISUID;
    let file_name = "file";

    let mode: Option<u32> = Some(default_mode | S_IXUSR);
    internal_test_format_filename_file(
        file_name,
        mode,
        IndicatorStyle::Never,
        false,
        ansi_style_str,
    );
    internal_test_format_filename_file(
        file_name,
        mode,
        IndicatorStyle::Slash,
        false,
        ansi_style_str,
    );
    internal_test_format_filename_file(
        file_name,
        mode,
        IndicatorStyle::Classify,
        true,
        ansi_style_str,
    );

    let mode: Option<u32> = Some(default_mode | S_IXGRP);
    internal_test_format_filename_file(
        file_name,
        mode,
        IndicatorStyle::Never,
        false,
        ansi_style_str,
    );
    internal_test_format_filename_file(
        file_name,
        mode,
        IndicatorStyle::Slash,
        false,
        ansi_style_str,
    );
    internal_test_format_filename_file(
        file_name,
        mode,
        IndicatorStyle::Classify,
        true,
        ansi_style_str,
    );

    let mode: Option<u32> = Some(default_mode | S_IXOTH);
    internal_test_format_filename_file(
        file_name,
        mode,
        IndicatorStyle::Never,
        false,
        ansi_style_str,
    );
    internal_test_format_filename_file(
        file_name,
        mode,
        IndicatorStyle::Slash,
        false,
        ansi_style_str,
    );
    internal_test_format_filename_file(
        file_name,
        mode,
        IndicatorStyle::Classify,
        true,
        ansi_style_str,
    );

    let mode: Option<u32> = Some(default_mode | S_IXUSR | S_IXGRP);
    internal_test_format_filename_file(
        file_name,
        mode,
        IndicatorStyle::Never,
        false,
        ansi_style_str,
    );
    internal_test_format_filename_file(
        file_name,
        mode,
        IndicatorStyle::Slash,
        false,
        ansi_style_str,
    );
    internal_test_format_filename_file(
        file_name,
        mode,
        IndicatorStyle::Classify,
        true,
        ansi_style_str,
    );

    let mode: Option<u32> = Some(default_mode | S_IXUSR | S_IXOTH);
    internal_test_format_filename_file(
        file_name,
        mode,
        IndicatorStyle::Never,
        false,
        ansi_style_str,
    );
    internal_test_format_filename_file(
        file_name,
        mode,
        IndicatorStyle::Slash,
        false,
        ansi_style_str,
    );
    internal_test_format_filename_file(
        file_name,
        mode,
        IndicatorStyle::Classify,
        true,
        ansi_style_str,
    );

    let mode: Option<u32> = Some(default_mode | S_IXGRP | S_IXOTH);
    internal_test_format_filename_file(
        file_name,
        mode,
        IndicatorStyle::Never,
        false,
        ansi_style_str,
    );
    internal_test_format_filename_file(
        file_name,
        mode,
        IndicatorStyle::Slash,
        false,
        ansi_style_str,
    );
    internal_test_format_filename_file(
        file_name,
        mode,
        IndicatorStyle::Classify,
        true,
        ansi_style_str,
    );

    let mode: Option<u32> = Some(default_mode | S_IXUSR | S_IXGRP | S_IXOTH);
    internal_test_format_filename_file(
        file_name,
        mode,
        IndicatorStyle::Never,
        false,
        ansi_style_str,
    );
    internal_test_format_filename_file(
        file_name,
        mode,
        IndicatorStyle::Slash,
        false,
        ansi_style_str,
    );
    internal_test_format_filename_file(
        file_name,
        mode,
        IndicatorStyle::Classify,
        true,
        ansi_style_str,
    );
}

#[test]
fn test_format_filename_executable_setgid_file() {
    let ls_colors = colors();
    let ansi_style_str = ls_colors.setgid_style();
    let default_mode: u32 = 0o644 | S_ISGID;
    let file_name = "file";

    let mode: Option<u32> = Some(default_mode | S_IXUSR);
    internal_test_format_filename_file(
        file_name,
        mode,
        IndicatorStyle::Never,
        false,
        ansi_style_str,
    );
    internal_test_format_filename_file(
        file_name,
        mode,
        IndicatorStyle::Slash,
        false,
        ansi_style_str,
    );
    internal_test_format_filename_file(
        file_name,
        mode,
        IndicatorStyle::Classify,
        true,
        ansi_style_str,
    );

    let mode: Option<u32> = Some(default_mode | S_IXGRP);
    internal_test_format_filename_file(
        file_name,
        mode,
        IndicatorStyle::Never,
        false,
        ansi_style_str,
    );
    internal_test_format_filename_file(
        file_name,
        mode,
        IndicatorStyle::Slash,
        false,
        ansi_style_str,
    );
    internal_test_format_filename_file(
        file_name,
        mode,
        IndicatorStyle::Classify,
        true,
        ansi_style_str,
    );

    let mode: Option<u32> = Some(default_mode | S_IXOTH);
    internal_test_format_filename_file(
        file_name,
        mode,
        IndicatorStyle::Never,
        false,
        ansi_style_str,
    );
    internal_test_format_filename_file(
        file_name,
        mode,
        IndicatorStyle::Slash,
        false,
        ansi_style_str,
    );
    internal_test_format_filename_file(
        file_name,
        mode,
        IndicatorStyle::Classify,
        true,
        ansi_style_str,
    );

    let mode: Option<u32> = Some(default_mode | S_IXUSR | S_IXGRP);
    internal_test_format_filename_file(
        file_name,
        mode,
        IndicatorStyle::Never,
        false,
        ansi_style_str,
    );
    internal_test_format_filename_file(
        file_name,
        mode,
        IndicatorStyle::Slash,
        false,
        ansi_style_str,
    );
    internal_test_format_filename_file(
        file_name,
        mode,
        IndicatorStyle::Classify,
        true,
        ansi_style_str,
    );

    let mode: Option<u32> = Some(default_mode | S_IXUSR | S_IXOTH);
    internal_test_format_filename_file(
        file_name,
        mode,
        IndicatorStyle::Never,
        false,
        ansi_style_str,
    );
    internal_test_format_filename_file(
        file_name,
        mode,
        IndicatorStyle::Slash,
        false,
        ansi_style_str,
    );
    internal_test_format_filename_file(
        file_name,
        mode,
        IndicatorStyle::Classify,
        true,
        ansi_style_str,
    );

    let mode: Option<u32> = Some(default_mode | S_IXGRP | S_IXOTH);
    internal_test_format_filename_file(
        file_name,
        mode,
        IndicatorStyle::Never,
        false,
        ansi_style_str,
    );
    internal_test_format_filename_file(
        file_name,
        mode,
        IndicatorStyle::Slash,
        false,
        ansi_style_str,
    );
    internal_test_format_filename_file(
        file_name,
        mode,
        IndicatorStyle::Classify,
        true,
        ansi_style_str,
    );

    let mode: Option<u32> = Some(default_mode | S_IXUSR | S_IXGRP | S_IXOTH);
    internal_test_format_filename_file(
        file_name,
        mode,
        IndicatorStyle::Never,
        false,
        ansi_style_str,
    );
    internal_test_format_filename_file(
        file_name,
        mode,
        IndicatorStyle::Slash,
        false,
        ansi_style_str,
    );
    internal_test_format_filename_file(
        file_name,
        mode,
        IndicatorStyle::Classify,
        true,
        ansi_style_str,
    );
}

#[test]
fn test_format_filename_regular_dir() {
    let ls_colors = colors();
    let ansi_style_str = ls_colors.dir_style();
    let mode: Option<u32> = None;

    internal_test_format_filename_dir(mode, IndicatorStyle::Never, false, ansi_style_str);
    internal_test_format_filename_dir(mode, IndicatorStyle::Slash, true, ansi_style_str);
    internal_test_format_filename_dir(mode, IndicatorStyle::Classify, true, ansi_style_str);
}

#[test]
fn test_format_filename_sticky_dir() {
    let ls_colors = colors();
    let ansi_style_str = ls_colors.dir_sticky_style();
    let mode: Option<u32> = Some(0o755 | S_ISVTX);

    internal_test_format_filename_dir(mode, IndicatorStyle::Never, false, ansi_style_str);
    internal_test_format_filename_dir(mode, IndicatorStyle::Slash, true, ansi_style_str);
    internal_test_format_filename_dir(mode, IndicatorStyle::Classify, true, ansi_style_str);
}

#[test]
fn test_format_filename_other_writeable_dir() {
    let ls_colors = colors();
    let ansi_style_str = ls_colors.dir_other_writable_style();
    let mode: Option<u32> = Some(0o755 | S_IWOTH);

    internal_test_format_filename_dir(mode, IndicatorStyle::Never, false, ansi_style_str);
    internal_test_format_filename_dir(mode, IndicatorStyle::Slash, true, ansi_style_str);
    internal_test_format_filename_dir(mode, IndicatorStyle::Classify, true, ansi_style_str);
}

#[test]
fn test_format_filename_sticky_and_other_writeable_dir() {
    let ls_colors = colors();
    let ansi_style_str = ls_colors.dir_sticky_and_other_writable_style();
    let mode: Option<u32> = Some(0o755 | S_ISVTX | S_IWOTH);

    internal_test_format_filename_dir(mode, IndicatorStyle::Never, false, ansi_style_str);
    internal_test_format_filename_dir(mode, IndicatorStyle::Slash, true, ansi_style_str);
    internal_test_format_filename_dir(mode, IndicatorStyle::Classify, true, ansi_style_str);
}

#[test]
fn test_format_filename_symlink_non_long_format() {
    let ls_colors = colors();
    let ansi_style_str = ls_colors.symlink_style();

    internal_test_format_filename_symlink_non_long_format(IndicatorStyle::Never, false, ansi_style_str);
    internal_test_format_filename_symlink_non_long_format(IndicatorStyle::Slash, false, ansi_style_str);
    internal_test_format_filename_symlink_non_long_format(IndicatorStyle::Classify, true, ansi_style_str);
}

#[test]
fn test_format_filename_symlink_long_format() {
    let ls_colors = colors();
    let ansi_style_str = ls_colors.symlink_style();

    internal_test_format_filename_symlink_long_format(IndicatorStyle::Never, false, ansi_style_str);
    internal_test_format_filename_symlink_long_format(IndicatorStyle::Slash, true, ansi_style_str);
    internal_test_format_filename_symlink_long_format(IndicatorStyle::Classify, true, ansi_style_str);
}

#[test]
fn test_format_filename_block_device() {
    let ls_colors = colors();
    let ansi_style_str = ls_colors.block_device_style();

    internal_test_format_filename_block_device(IndicatorStyle::Never, ansi_style_str);
    internal_test_format_filename_block_device(IndicatorStyle::Slash, ansi_style_str);
    internal_test_format_filename_block_device(IndicatorStyle::Classify, ansi_style_str);
}

#[test]
fn test_format_filename_char_device() {
    let ls_colors = colors();
    let ansi_style_str = ls_colors.char_device_style();

    internal_test_format_filename_char_device(IndicatorStyle::Never, ansi_style_str);
    internal_test_format_filename_char_device(IndicatorStyle::Slash, ansi_style_str);
    internal_test_format_filename_char_device(IndicatorStyle::Classify, ansi_style_str);
}

#[test]
fn test_format_filename_fifo() {
    let ls_colors = colors();
    let ansi_style_str = ls_colors.fifo_style();

    internal_test_format_filename_fifo(IndicatorStyle::Never, false, ansi_style_str);
    internal_test_format_filename_fifo(IndicatorStyle::Slash, false, ansi_style_str);
    internal_test_format_filename_fifo(IndicatorStyle::Classify, true, ansi_style_str);
}

#[test]
fn test_format_filename_socket() {
    let ls_colors = colors();
    let ansi_style_str = ls_colors.socket_style();

    internal_test_format_filename_socket(IndicatorStyle::Never, false, ansi_style_str);
    internal_test_format_filename_socket(IndicatorStyle::Slash, false, ansi_style_str);
    internal_test_format_filename_socket(IndicatorStyle::Classify, true, ansi_style_str);
}

