use nls_ls::config::{AllocatedSizeBlocks, Config, OutputFormat, SortingOrder};
use nls_ls::entry::{EntryBuf, FileMetadata, SymlinkTarget};
use nls_ls::os::unix::accounts::{get_groupname_cell_by_gid, get_username_cell_by_uid, AccountCache};
use nls_ls::os::unix::sys_prelude::{S_IFDIR, S_IFLNK, S_IFREG};
use nls_ls::output::display_cell::DisplayCell;
use nls_ls::output::sort::sort_entrybuf_vec;
use nls_ls::output::{output, print_total};

fn metadata(mode: u32, len: u64, blocks: u64, mtime: i64) -> FileMetadata {
    FileMetadata {
        mode: mode,
        nlink: 1,
        uid: 1000,
        gid: 100,
        len: len,
        blocks: blocks,
        ino: 7,
        rdev: 0,
        atime: mtime,
        mtime: mtime,
        ctime: mtime,
        created: Some(mtime),
    }
}

fn entry(name: &str, meta: FileMetadata, config: &Config) -> EntryBuf {
    EntryBuf::from_cmdline_path(name, Some(meta), SymlinkTarget::Unreadable, false, config)
}

fn render(entries: &mut Vec<EntryBuf>, config: &Config) -> String {
    let mut users = AccountCache::new();
    let mut groups = AccountCache::new();
    output(entries, Some(80), &mut users, &mut groups, 0, config).unwrap()
}

#[test]
fn test_single_column_sorted_by_name() {
    let config = Config::default();
    let mut entries = vec![
        entry("b", metadata(S_IFREG | 0o644, 1, 0, 0), &config),
        entry("A", metadata(S_IFREG | 0o644, 1, 0, 0), &config),
        entry("c", metadata(S_IFREG | 0o644, 1, 0, 0), &config),
    ];
    assert_eq!(render(&mut entries, &config), "A\nb\nc\n");
}

#[test]
fn test_reverse_lists_backwards() {
    let mut config = Config::default();
    config.reverse = true;
    let mut entries = vec![
        entry("b", metadata(S_IFREG | 0o644, 1, 0, 0), &config),
        entry("A", metadata(S_IFREG | 0o644, 1, 0, 0), &config),
        entry("c", metadata(S_IFREG | 0o644, 1, 0, 0), &config),
    ];
    assert_eq!(render(&mut entries, &config), "c\nb\nA\n");
}

#[test]
fn test_sort_by_size_and_time() {
    let mut config = Config::default();
    config.sorting_order = SortingOrder::Size;
    let mut entries = vec![
        entry("small", metadata(S_IFREG | 0o644, 10, 0, 3), &config),
        entry("big", metadata(S_IFREG | 0o644, 30, 0, 1), &config),
        entry("b-mid", metadata(S_IFREG | 0o644, 20, 0, 2), &config),
        entry("a-mid", metadata(S_IFREG | 0o644, 20, 0, 2), &config),
    ];
    sort_entrybuf_vec(&mut entries, &config);
    let names: Vec<&str> = entries.iter().map(|e| e.file_name_key()).collect();
    assert_eq!(names, vec!["big", "a-mid", "b-mid", "small"]);

    config.sorting_order = SortingOrder::Timestamp;
    sort_entrybuf_vec(&mut entries, &config);
    let names: Vec<&str> = entries.iter().map(|e| e.file_name_key()).collect();
    assert_eq!(names, vec!["small", "a-mid", "b-mid", "big"]);
}

#[test]
fn test_empty_listing_is_empty() {
    let config = Config::default();
    let mut entries: Vec<EntryBuf> = Vec::new();
    assert_eq!(render(&mut entries, &config), "");
}

#[test]
fn test_across_format_one_row() {
    let mut config = Config::default();
    config.output_format = OutputFormat::Across;
    let mut entries = vec![
        entry("c", metadata(S_IFREG | 0o644, 1, 0, 0), &config),
        entry("a", metadata(S_IFREG | 0o644, 1, 0, 0), &config),
        entry("b", metadata(S_IFDIR | 0o755, 1, 0, 0), &config),
    ];
    assert_eq!(render(&mut entries, &config), "a  b  c\n");
}

#[test]
fn test_single_column_with_inode() {
    let mut config = Config::default();
    config.list_inode = true;
    let mut entries = vec![entry("file", metadata(S_IFREG | 0o644, 1, 0, 0), &config)];
    assert_eq!(render(&mut entries, &config), "7 file\n");
}

#[test]
fn test_long_format_row() {
    let mut config = Config::default();
    config.output_format = OutputFormat::Long;
    config.numeric_uid_gid = true;
    let mut entries = vec![entry("file", metadata(S_IFREG | 0o644, 5, 8, 0), &config)];
    let text = render(&mut entries, &config);
    assert!(text.starts_with("-rw-r--r-- 1 1000 100 5 "), "{}", text);
    assert!(text.ends_with(" file\n"), "{}", text);
}

#[test]
fn test_long_format_symlink_target() {
    let mut config = Config::default();
    config.output_format = OutputFormat::Long;
    config.numeric_uid_gid = true;
    let target = SymlinkTarget::Unresolved(String::from("missing"));
    let link = EntryBuf::from_cmdline_path("link", Some(metadata(S_IFLNK | 0o777, 7, 0, 0)), target, false, &config);
    let mut entries = vec![link];
    let text = render(&mut entries, &config);
    assert!(text.ends_with(" link -> missing\n"), "{}", text);
    let unreadable = EntryBuf::from_cmdline_path(
        "link",
        Some(metadata(S_IFLNK | 0o777, 7, 0, 0)),
        SymlinkTarget::Unreadable,
        false,
        &config,
    );
    let mut entries = vec![unreadable];
    assert!(render(&mut entries, &config).ends_with(" link -> ?\n"));
}

#[test]
fn test_missing_metadata_cells() {
    let mut config = Config::default();
    config.output_format = OutputFormat::Long;
    config.numeric_uid_gid = true;
    let lost = EntryBuf::from_cmdline_path("lost", None, SymlinkTarget::Unreadable, false, &config);
    let mut entries = vec![lost];
    let text = render(&mut entries, &config);
    assert_eq!(text, "?????????? ? ? ? ? ? lost\n");
}

#[test]
fn test_print_total() {
    let mut config = Config::default();
    config.allocated_size_blocks = AllocatedSizeBlocks::Posix;
    let entries = vec![
        entry("a", metadata(S_IFREG | 0o644, 1, 8, 0), &config),
        entry("b", metadata(S_IFREG | 0o644, 1, 16, 0), &config),
    ];
    assert_eq!(print_total(&entries, &config), "total 24\n");
    let lost = vec![EntryBuf::from_cmdline_path("x", None, SymlinkTarget::Unreadable, false, &config)];
    assert_eq!(print_total(&lost, &config), "total 0\n");
}

#[test]
fn test_account_cache_gives_the_same_cell_twice() {
    let mut config = Config::default();
    config.numeric_uid_gid = true;
    let mut users = AccountCache::new();
    let first = get_username_cell_by_uid(&mut users, 4242, &config);
    assert_eq!(first, DisplayCell::from_num_with_style(4242, None));
    let second = get_username_cell_by_uid(&mut users, 4242, &config);
    assert_eq!(first, second);
    assert_eq!(users.get(4242), Some(first));
    let mut groups = AccountCache::new();
    assert_eq!(get_groupname_cell_by_gid(&mut groups, 7, &config).contents, "7");
    assert!(groups.get(8).is_none());
}

#[test]
fn test_file_name_key_is_lower_case() {
    let config = Config::default();
    let e = entry("MiXeD.TXT", metadata(S_IFREG | 0o644, 1, 0, 0), &config);
    assert_eq!(e.file_name_key(), "mixed.txt");
    let mut entries = vec![
        entry("b", metadata(S_IFREG | 0o644, 1, 0, 0), &config),
        entry("B2", metadata(S_IFREG | 0o644, 1, 0, 0), &config),
        entry("a", metadata(S_IFREG | 0o644, 1, 0, 0), &config),
    ];
    assert_eq!(render(&mut entries, &config), "a\nb\nB2\n");
}
