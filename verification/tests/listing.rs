use nls_ls::config::{Config, OutputFormat};
use nls_ls::listing::{dir_header, ends_listing, plan_cmdline, walk_settings, PathKind};

#[test]
fn test_plan_cmdline_splits_paths() {
    let kinds = vec![PathKind::Directory, PathKind::Other, PathKind::Unreadable, PathKind::Directory, PathKind::Other];
    let plan = plan_cmdline(&kinds, true);
    assert_eq!(plan.entries, vec![1, 4]);
    assert_eq!(plan.dirs, vec![0, 3]);
    assert!(plan.headers);

    let plan = plan_cmdline(&kinds, false);
    assert_eq!(plan.entries, vec![0, 1, 3, 4]);
    assert!(plan.dirs.is_empty());

    let plan = plan_cmdline(&vec![PathKind::Directory], true);
    assert!(plan.entries.is_empty());
    assert_eq!(plan.dirs, vec![0]);
    assert!(!plan.headers);
}

#[test]
fn test_dir_header() {
    assert_eq!(dir_header("src", false), "src:");
    assert_eq!(dir_header("src", true), "\nsrc:");
}

#[test]
fn test_ends_listing() {
    assert!(ends_listing(false, true));
    assert!(!ends_listing(true, true));
    assert!(!ends_listing(false, false));
}

#[test]
fn test_walk_settings() {
    let mut config = Config::default();
    config.git_ignore = true;
    config.max_depth = Some(2);
    let flat = walk_settings(&config, false);
    assert_eq!(flat.max_depth, Some(1));
    assert!(flat.hidden && flat.parents && flat.git_ignore && !flat.ignore);
    assert!(!flat.sort_by_path && !flat.dirs_only);
    let deep = walk_settings(&config, true);
    assert_eq!(deep.max_depth, Some(2));
    assert!(deep.sort_by_path && deep.dirs_only);
}

#[test]
fn test_totals_shown() {
    let mut config = Config::default();
    assert!(!config.shows_dir_total());
    config.output_format = OutputFormat::Long;
    assert!(config.shows_dir_total());
    assert!(!config.shows_entries_total());
    config.list_allocated_size = true;
    assert!(config.shows_entries_total());
}
