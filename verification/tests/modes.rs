use nls_ls::config::{AllocatedSizeBlocks, Config, ModeFormat};
use nls_ls::os::unix::mode::{pwsh_mode_cell, rwx_mode_cell};
use nls_ls::os::unix::sys_prelude::{
    S_IFBLK, S_IFCHR, S_IFDIR, S_IFIFO, S_IFLNK, S_IFREG, S_IFSOCK, S_ISGID, S_ISUID, S_ISVTX,
};
use nls_ls::os::unix::{format_rdev, get_allocated_size};
use nls_ls::output::display_cell::Alignment;
use nls_ls::theme::ThemeConfig;

#[test]
fn test_rwx_mode_cell_plain() {
    let config = Config::default();
    let cases = [
        (S_IFREG | 0o755, "-rwxr-xr-x"),
        (S_IFREG | 0o644, "-rw-r--r--"),
        (S_IFDIR | 0o700, "drwx------"),
        (S_IFLNK | 0o777, "lrwxrwxrwx"),
        (S_IFBLK | 0o660, "brw-rw----"),
        (S_IFCHR | 0o666, "crw-rw-rw-"),
        (S_IFIFO | 0o644, "prw-r--r--"),
        (S_IFSOCK | 0o755, "srwxr-xr-x"),
        (S_IFREG | S_ISUID | 0o755, "-rwsr-xr-x"),
        (S_IFREG | S_ISUID | 0o644, "-rwSr--r--"),
        (S_IFREG | S_ISGID | 0o755, "-rwxr-sr-x"),
        (S_IFREG | S_ISGID | 0o644, "-rw-r-Sr--"),
        (S_IFDIR | S_ISVTX | 0o777, "drwxrwxrwt"),
        (S_IFDIR | S_ISVTX | 0o776, "drwxrwxrwT"),
        (0o644, "?rw-r--r--"),
    ];
    for (mode, text) in cases {
        let cell = rwx_mode_cell(mode, &config);
        assert_eq!(cell.contents, text, "mode {:o}", mode);
        assert_eq!(cell.width, 10);
        assert_eq!(cell.alignment, Alignment::Left);
    }
}

#[test]
fn test_rwx_mode_cell_styled() {
    let mut config = Config::default();
    config.theme = ThemeConfig::with_default_colors();
    let cell = rwx_mode_cell(S_IFREG | 0o400, &config);
    let dash = "\x1b[37;1;2m-\x1b[0m";
    let expected = format!("-\x1b[33;1mr\x1b[0m{}{}{}{}{}{}{}{}", dash, dash, dash, dash, dash, dash, dash, dash);
    assert_eq!(cell.contents, expected);
    assert_eq!(cell.width, 10);
}

#[test]
fn test_pwsh_mode_cell() {
    let mut config = Config::default();
    config.mode_format = ModeFormat::Pwsh;
    let cell = pwsh_mode_cell(S_IFDIR | 0o755, "src", false, &config);
    assert_eq!(cell.contents, "d-----");
    assert_eq!(cell.width, 6);
    assert_eq!(pwsh_mode_cell(S_IFREG | 0o444, ".hidden", false, &config).contents, "--rh--");
    assert_eq!(pwsh_mode_cell(S_IFLNK | 0o777, "link", true, &config).contents, "d----l");
    assert_eq!(pwsh_mode_cell(S_IFLNK | 0o777, "link", false, &config).contents, "-----l");
}

#[test]
fn test_format_rdev() {
    let config = Config::default();
    let cell = format_rdev((8 << 8) | 1, &config);
    assert_eq!(cell.contents, "8,   1");
    assert_eq!(cell.width, 6);
    assert_eq!(cell.alignment, Alignment::Right);
    let cell = format_rdev((1 << 8) | 3, &config);
    assert_eq!(cell.contents, "1,   3");

    let mut colored = Config::default();
    colored.theme = ThemeConfig::with_default_colors();
    assert_eq!(format_rdev((1 << 8) | 3, &colored).contents, "\x1b[36m1,   3\x1b[0m");
}

#[test]
fn test_get_allocated_size_units() {
    let mut config = Config::default();
    config.allocated_size_blocks = AllocatedSizeBlocks::Posix;
    assert_eq!(get_allocated_size(9, &config), 9);
    config.allocated_size_blocks = AllocatedSizeBlocks::Kibibytes;
    assert_eq!(get_allocated_size(9, &config), 5);
    assert_eq!(get_allocated_size(8, &config), 4);
    config.allocated_size_blocks = AllocatedSizeBlocks::Raw;
    assert_eq!(get_allocated_size(9, &config), 4608);
}
