use nls_ls::theme::IconTheme;

#[test]
fn test_icontheme_file_icon() {
    let icons = IconTheme::default();
    assert!(icons.file_icon("Cargo.toml", "toml").is_none());
    assert!(icons.file_icon("init.lua", "lua").is_none());
    assert!(icons.file_icon("file_name", "").is_none());

    let icons = IconTheme::with_default_icons();
    assert_eq!(icons.file_icon("Cargo.toml", "toml"), Some(IconTheme::RUST));
    assert_eq!(icons.file_icon("init.lua", "lua"), Some(IconTheme::LUA));
    assert_eq!(icons.file_icon("file_name", ""), Some(IconTheme::DEFAULT_FILE));
}

#[test]
fn test_icontheme_dir_icon() {
    let icons = IconTheme::default();
    assert!(icons.dir_icon(".cargo").is_none());
    assert!(icons.dir_icon("dir1").is_none());

    let icons = IconTheme::with_default_icons();
    assert_eq!(icons.dir_icon(".cargo"), Some(IconTheme::RUST));
    assert_eq!(icons.dir_icon("dir1"), Some(IconTheme::DEFAULT_DIR));
}

#[test]
fn test_icontheme_symlink_icon() {
    let icons = IconTheme::default();
    assert!(icons.symlink_icon().is_none());

    let icons = IconTheme::with_default_icons();
    assert_eq!(icons.symlink_icon(), Some(IconTheme::DEFAULT_SYMLINK));
}

#[test]
fn test_icontheme_block_device_icon() {
    let icons = IconTheme::default();
    assert!(icons.block_device_icon().is_none());

    let icons = IconTheme::with_default_icons();
    assert_eq!(icons.block_device_icon(), Some(IconTheme::DEFAULT_BLOCK_DEVICE));
}

#[test]
fn test_icontheme_char_device_icon() {
    let icons = IconTheme::default();
    assert!(icons.char_device_icon().is_none());

    let icons = IconTheme::with_default_icons();
    assert_eq!(icons.char_device_icon(), Some(IconTheme::DEFAULT_CHAR_DEVICE));
}

#[test]
fn test_icontheme_fifo_icon() {
    let icons = IconTheme::default();
    assert!(icons.fifo_icon().is_none());

    let icons = IconTheme::with_default_icons();
    assert_eq!(icons.fifo_icon(), Some(IconTheme::DEFAULT_FIFO));
}

#[test]
fn test_icontheme_socket_icon() {
    let icons = IconTheme::default();
    assert!(icons.socket_icon().is_none());

    let icons = IconTheme::with_default_icons();
    assert_eq!(icons.socket_icon(), Some(IconTheme::DEFAULT_SOCKET));
}
