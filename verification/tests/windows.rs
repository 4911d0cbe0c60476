use nls_ls::config::{AllocatedSizeBlocks, Config, ModeFormat, OutputFormat, SortingOrder};
use nls_ls::os::windows::mode::{pwsh_mode_cell, rwx_mode_cell, FileKind};
use nls_ls::os::windows::permissions::{accessmask_to_rwx, get_rwx_permissions, string_push_char_with_style};
use nls_ls::os::windows::sys_prelude::{
    FILE_ATTRIBUTE_ARCHIVE, FILE_ATTRIBUTE_DIRECTORY, FILE_ATTRIBUTE_HIDDEN, FILE_ATTRIBUTE_READONLY,
    FILE_ATTRIBUTE_REPARSE_POINT, FILE_ATTRIBUTE_SYSTEM, FILE_GENERIC_EXECUTE, FILE_GENERIC_READ,
    FILE_GENERIC_WRITE,
};
use nls_ls::os::windows::{utf16_until_null_to_string_lossy, SecurityDetails, StandardInfo, WindowsMetadata};
use nls_ls::output::display_cell::Alignment;
use nls_ls::theme::ThemeConfig;

#[test]
fn test_windows_pwsh_mode_cell() {
    let config = Config::default();
    let all = FILE_ATTRIBUTE_DIRECTORY
        | FILE_ATTRIBUTE_ARCHIVE
        | FILE_ATTRIBUTE_READONLY
        | FILE_ATTRIBUTE_HIDDEN
        | FILE_ATTRIBUTE_SYSTEM
        | FILE_ATTRIBUTE_REPARSE_POINT;
    assert_eq!(pwsh_mode_cell(Some(all), &config).contents, "darhsl");
    assert_eq!(pwsh_mode_cell(Some(FILE_ATTRIBUTE_ARCHIVE), &config).contents, "-a----");
    assert_eq!(pwsh_mode_cell(Some(0), &config).contents, "------");
    let unknown = pwsh_mode_cell(None, &config);
    assert_eq!(unknown.contents, "??????");
    assert_eq!(unknown.width, 6);

    let mut colored = Config::default();
    colored.theme = ThemeConfig::with_default_colors();
    let cell = pwsh_mode_cell(Some(FILE_ATTRIBUTE_HIDDEN), &colored);
    let dash = "\x1b[37;1;2m-\x1b[0m";
    assert_eq!(cell.contents, format!("{}{}{}\x1b[35mh\x1b[0m{}{}", dash, dash, dash, dash, dash));
    assert_eq!(cell.width, 6);
}

#[test]
fn test_windows_accessmask_to_rwx() {
    let config = Config::default();
    assert_eq!(accessmask_to_rwx(FILE_GENERIC_READ, &config), "r--");
    assert_eq!(accessmask_to_rwx(FILE_GENERIC_READ | FILE_GENERIC_WRITE | FILE_GENERIC_EXECUTE, &config), "rwx");
    // Only a right whose bits are all granted counts.
    assert_eq!(accessmask_to_rwx(0x1, &config), "---");
    assert_eq!(
        get_rwx_permissions(Some(FILE_GENERIC_READ | FILE_GENERIC_WRITE), None, Some(FILE_GENERIC_EXECUTE), &config),
        "rw-???--x"
    );
}

#[test]
fn test_string_push_char_with_style() {
    let mut s = String::from("ab");
    string_push_char_with_style(&mut s, 'c', None);
    assert_eq!(s, "abc");
    string_push_char_with_style(&mut s, 'd', Some("31"));
    assert_eq!(s, "abc\x1b[31md\x1b[0m");
}

#[test]
fn test_windows_rwx_mode_cell() {
    let config = Config::default();
    let cell = rwx_mode_cell(Some(FileKind::Dir), "rwxr-xr-x", &config);
    assert_eq!(cell.contents, "drwxr-xr-x");
    assert_eq!(cell.width, 11);
    assert_eq!(rwx_mode_cell(None, "?????????", &config).contents, "??????????");
    assert_eq!(rwx_mode_cell(Some(FileKind::Other), "r--r--r--", &config).contents, "?r--r--r--");
}

#[test]
fn test_windows_metadata_records() {
    let mut config = Config::default();
    config.output_format = OutputFormat::Long;
    assert!(WindowsMetadata::wants_standard_info(&config));
    assert!(WindowsMetadata::wants_security_info(&config));
    config.output_format = OutputFormat::SingleColumn;
    config.sorting_order = SortingOrder::Size;
    assert!(WindowsMetadata::wants_standard_info(&config));
    assert!(!WindowsMetadata::wants_security_info(&config));

    let mut metadata = WindowsMetadata::new();
    assert_eq!(metadata.size(), None);
    assert_eq!(metadata.nlink_cell(&config).contents, "?");
    metadata.record_standard_info(Some(StandardInfo { allocation_size: 1025, number_of_links: 2, end_of_file: 1000 }));
    assert_eq!(metadata.size(), Some(1000));
    assert_eq!(metadata.nlink_cell(&config).contents, "2");
    config.allocated_size_blocks = AllocatedSizeBlocks::Posix;
    assert_eq!(metadata.allocated_size(&config), Some(3));
    config.allocated_size_blocks = AllocatedSizeBlocks::Kibibytes;
    assert_eq!(metadata.allocated_size(&config), Some(2));
    config.allocated_size_blocks = AllocatedSizeBlocks::Raw;
    assert_eq!(metadata.allocated_size(&config), Some(1025));

    config.mode_format = ModeFormat::Rwx;
    metadata.record_security_info(
        Some(SecurityDetails {
            rwx_permissions: String::from("rw-r--r--"),
            owner: String::from("alice"),
            group: String::from("users"),
        }),
        &config,
    );
    assert_eq!(metadata.owner_cell(&config).contents, "alice");
    assert_eq!(metadata.group_cell(&config).contents, "users");
    assert_eq!(metadata.rwx_mode_cell(Some(FileKind::File), &config).contents, "-rw-r--r--");

    metadata.record_security_info(None, &config);
    let owner = metadata.owner_cell(&config);
    assert_eq!(owner.contents, "?");
    assert_eq!(owner.alignment, Alignment::Left);
    assert_eq!(metadata.rwx_mode_cell(Some(FileKind::File), &config).contents, "-?????????");
}

#[test]
fn test_utf16_until_null_to_string_lossy() {
    let units: Vec<u16> = "C:\\Users".encode_utf16().chain([0u16, 65u16]).collect();
    assert_eq!(utf16_until_null_to_string_lossy(&units), "C:\\Users");
    let no_null: Vec<u16> = "abc".encode_utf16().collect();
    assert_eq!(utf16_until_null_to_string_lossy(&no_null), "abc");
    assert_eq!(utf16_until_null_to_string_lossy(&[0xd800u16, 0]), "\u{fffd}");
    assert_eq!(utf16_until_null_to_string_lossy(&[]), "");
}
