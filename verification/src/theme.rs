//! Colours for the metadata columns and icons for file names.

use vstd::prelude::*;

use crate::text::{opt_str_view, str_eq, string_from};

verus! {

/// ANSI styles for the columns of the long format and for permission
/// characters; `None` means unstyled.
pub struct ThemeConfig {
    pub inode: Option<String>,
    pub nlink: Option<String>,
    pub owner: Option<String>,
    pub group: Option<String>,
    pub size: Option<String>,
    pub timestamp: Option<String>,
    pub read: Option<String>,
    pub write: Option<String>,
    pub execute: Option<String>,
    pub no_permission: Option<String>,
    pub setuid: Option<String>,
    pub setgid: Option<String>,
    pub sticky: Option<String>,
    pub archive: Option<String>,
    pub system: Option<String>,
    pub hidden: Option<String>,
}

/// The abstract styles of a theme.
pub struct ThemeView {
    pub inode: Option<Seq<char>>,
    pub nlink: Option<Seq<char>>,
    pub owner: Option<Seq<char>>,
    pub group: Option<Seq<char>>,
    pub size: Option<Seq<char>>,
    pub timestamp: Option<Seq<char>>,
    pub read: Option<Seq<char>>,
    pub write: Option<Seq<char>>,
    pub execute: Option<Seq<char>>,
    pub no_permission: Option<Seq<char>>,
    pub setuid: Option<Seq<char>>,
    pub setgid: Option<Seq<char>>,
    pub sticky: Option<Seq<char>>,
    pub archive: Option<Seq<char>>,
    pub system: Option<Seq<char>>,
    pub hidden: Option<Seq<char>>,
}

impl View for ThemeConfig {
    type V = ThemeView;

    open spec fn view(&self) -> ThemeView {
        ThemeView {
            inode: opt_string_view(self.inode),
            nlink: opt_string_view(self.nlink),
            owner: opt_string_view(self.owner),
            group: opt_string_view(self.group),
            size: opt_string_view(self.size),
            timestamp: opt_string_view(self.timestamp),
            read: opt_string_view(self.read),
            write: opt_string_view(self.write),
            execute: opt_string_view(self.execute),
            no_permission: opt_string_view(self.no_permission),
            setuid: opt_string_view(self.setuid),
            setgid: opt_string_view(self.setgid),
            sticky: opt_string_view(self.sticky),
            archive: opt_string_view(self.archive),
            system: opt_string_view(self.system),
            hidden: opt_string_view(self.hidden),
        }
    }
}

/// The view of an optional owned string.
pub open spec fn opt_string_view(s: Option<String>) -> Option<Seq<char>> {
    match s {
        Some(s) => Some(s@),
        None => None,
    }
}

/// Borrows an optional owned string as an optional string slice.
pub fn opt_as_str(s: &Option<String>) -> (r: Option<&str>)
    ensures
        opt_str_view(r) == opt_string_view(*s),
{
    match s {
        Some(s) => Some(s.as_str()),
        None => None,
    }
}

fn some_string(s: &str) -> (r: Option<String>)
    ensures
        opt_string_view(r) == Some(s@),
{
    Some(string_from(s))
}

impl ThemeConfig {
    /// The style for the inode column or character.
    pub fn inode_style(&self) -> (r: Option<&str>)
        ensures
            opt_str_view(r) == opt_string_view(self.inode),
    {
        opt_as_str(&self.inode)
    }

    /// The style for the nlink column or character.
    pub fn nlink_style(&self) -> (r: Option<&str>)
        ensures
            opt_str_view(r) == opt_string_view(self.nlink),
    {
        opt_as_str(&self.nlink)
    }

    /// The style for the owner column or character.
    pub fn owner_style(&self) -> (r: Option<&str>)
        ensures
            opt_str_view(r) == opt_string_view(self.owner),
    {
        opt_as_str(&self.owner)
    }

    /// The style for the group column or character.
    pub fn group_style(&self) -> (r: Option<&str>)
        ensures
            opt_str_view(r) == opt_string_view(self.group),
    {
        opt_as_str(&self.group)
    }

    /// The style for the size column or character.
    pub fn size_style(&self) -> (r: Option<&str>)
        ensures
            opt_str_view(r) == opt_string_view(self.size),
    {
        opt_as_str(&self.size)
    }

    /// The style for the timestamp column or character.
    pub fn timestamp_style(&self) -> (r: Option<&str>)
        ensures
            opt_str_view(r) == opt_string_view(self.timestamp),
    {
        opt_as_str(&self.timestamp)
    }

    /// The style for the read column or character.
    pub fn read_style(&self) -> (r: Option<&str>)
        ensures
            opt_str_view(r) == opt_string_view(self.read),
    {
        opt_as_str(&self.read)
    }

    /// The style for the write column or character.
    pub fn write_style(&self) -> (r: Option<&str>)
        ensures
            opt_str_view(r) == opt_string_view(self.write),
    {
        opt_as_str(&self.write)
    }

    /// The style for the execute column or character.
    pub fn execute_style(&self) -> (r: Option<&str>)
        ensures
            opt_str_view(r) == opt_string_view(self.execute),
    {
        opt_as_str(&self.execute)
    }

    /// The style for the no permission column or character.
    pub fn no_permission_style(&self) -> (r: Option<&str>)
        ensures
            opt_str_view(r) == opt_string_view(self.no_permission),
    {
        opt_as_str(&self.no_permission)
    }

    /// The style for the setuid column or character.
    pub fn setuid_style(&self) -> (r: Option<&str>)
        ensures
            opt_str_view(r) == opt_string_view(self.setuid),
    {
        opt_as_str(&self.setuid)
    }

    /// The style for the setgid column or character.
    pub fn setgid_style(&self) -> (r: Option<&str>)
        ensures
            opt_str_view(r) == opt_string_view(self.setgid),
    {
        opt_as_str(&self.setgid)
    }

    /// The style for the sticky column or character.
    pub fn sticky_style(&self) -> (r: Option<&str>)
        ensures
            opt_str_view(r) == opt_string_view(self.sticky),
    {
        opt_as_str(&self.sticky)
    }

    /// The style for the archive column or character.
    pub fn archive_style(&self) -> (r: Option<&str>)
        ensures
            opt_str_view(r) == opt_string_view(self.archive),
    {
        opt_as_str(&self.archive)
    }

    /// The style for the system column or character.
    pub fn system_style(&self) -> (r: Option<&str>)
        ensures
            opt_str_view(r) == opt_string_view(self.system),
    {
        opt_as_str(&self.system)
    }

    /// The style for the hidden column or character.
    pub fn hidden_style(&self) -> (r: Option<&str>)
        ensures
            opt_str_view(r) == opt_string_view(self.hidden),
    {
        opt_as_str(&self.hidden)
    }

    /// Whether no style is set.
    pub open spec fn is_plain(&self) -> bool {
        &&& self.inode is None
        &&& self.nlink is None
        &&& self.owner is None
        &&& self.group is None
        &&& self.size is None
        &&& self.timestamp is None
        &&& self.read is None
        &&& self.write is None
        &&& self.execute is None
        &&& self.no_permission is None
        &&& self.setuid is None
        &&& self.setgid is None
        &&& self.sticky is None
        &&& self.archive is None
        &&& self.system is None
        &&& self.hidden is None
    }

    /// The theme without styles.
    pub open spec fn plain_spec() -> ThemeView {
        ThemeView {
            inode: None,
            nlink: None,
            owner: None,
            group: None,
            size: None,
            timestamp: None,
            read: None,
            write: None,
            execute: None,
            no_permission: None,
            setuid: None,
            setgid: None,
            sticky: None,
            archive: None,
            system: None,
            hidden: None,
        }
    }

    /// No styles at all.
    pub fn new() -> (r: Self)
        ensures
            r@ == ThemeConfig::plain_spec(),
            r.inode is None,
            r.nlink is None,
            r.owner is None,
            r.group is None,
            r.size is None,
            r.timestamp is None,
            r.read is None,
            r.write is None,
            r.execute is None,
            r.no_permission is None,
            r.setuid is None,
            r.setgid is None,
            r.sticky is None,
            r.archive is None,
            r.system is None,
            r.hidden is None,
    {
        ThemeConfig {
            inode: None,
            nlink: None,
            owner: None,
            group: None,
            size: None,
            timestamp: None,
            read: None,
            write: None,
            execute: None,
            no_permission: None,
            setuid: None,
            setgid: None,
            sticky: None,
            archive: None,
            system: None,
            hidden: None,
        }
    }

    /// The default styles.
    pub open spec fn default_colors_spec() -> ThemeView {
        ThemeView {
            inode: Some("32;1"@),
            nlink: Some("36;1"@),
            owner: Some("31"@),
            group: Some("35"@),
            size: Some("36"@),
            timestamp: Some("33"@),
            read: Some("33;1"@),
            write: Some("31;1"@),
            execute: Some("32;1"@),
            no_permission: Some("37;1;2"@),
            setuid: Some("35;1"@),
            setgid: Some("35;1"@),
            sticky: Some("35;1"@),
            archive: None,
            system: None,
            hidden: Some("35"@),
        }
    }

    /// The default styles.
    pub fn with_default_colors() -> (r: Self)
        ensures
            r@ == ThemeConfig::default_colors_spec(),
            opt_string_view(r.inode) == Some("32;1"@),
            opt_string_view(r.nlink) == Some("36;1"@),
            opt_string_view(r.owner) == Some("31"@),
            opt_string_view(r.group) == Some("35"@),
            opt_string_view(r.size) == Some("36"@),
            opt_string_view(r.timestamp) == Some("33"@),
            opt_string_view(r.read) == Some("33;1"@),
            opt_string_view(r.write) == Some("31;1"@),
            opt_string_view(r.execute) == Some("32;1"@),
            opt_string_view(r.no_permission) == Some("37;1;2"@),
            opt_string_view(r.setuid) == Some("35;1"@),
            opt_string_view(r.setgid) == Some("35;1"@),
            opt_string_view(r.sticky) == Some("35;1"@),
            r.archive is None,
            r.system is None,
            opt_string_view(r.hidden) == Some("35"@),
    {
        ThemeConfig {
            inode: some_string("32;1"),
            nlink: some_string("36;1"),
            owner: some_string("31"),
            group: some_string("35"),
            size: some_string("36"),
            timestamp: some_string("33"),
            read: some_string("33;1"),
            write: some_string("31;1"),
            execute: some_string("32;1"),
            no_permission: some_string("37;1;2"),
            setuid: some_string("35;1"),
            setgid: some_string("35;1"),
            sticky: some_string("35;1"),
            archive: None,
            system: None,
            hidden: some_string("35"),
        }
    }
}

impl Default for ThemeConfig {
    fn default() -> (r: Self)
        ensures
            r.inode is None,
            r.nlink is None,
            r.owner is None,
            r.group is None,
            r.size is None,
            r.timestamp is None,
            r.read is None,
            r.write is None,
            r.execute is None,
            r.no_permission is None,
            r.setuid is None,
            r.setgid is None,
            r.sticky is None,
            r.archive is None,
            r.system is None,
            r.hidden is None,
    {
        ThemeConfig::new()
    }
}

/// Icons shown before file names, per file type; `None` means no icon.
pub struct IconTheme {
    pub file: Option<char>,
    pub dir: Option<char>,
    pub symlink: Option<char>,
    pub block_device: Option<char>,
    pub char_device: Option<char>,
    pub fifo: Option<char>,
    pub socket: Option<char>,
}

/// The icon of a file with a well-known name, if it has one.
pub open spec fn named_file_icon(name: Seq<char>) -> Option<char> {
    if name == "bash.bashrc"@ {
        Some(IconTheme::SHELL)
    } else if name == ".bash_aliases"@ {
        Some(IconTheme::SHELL)
    } else if name == ".bash_history"@ {
        Some(IconTheme::SHELL)
    } else if name == ".bash_login"@ {
        Some(IconTheme::SHELL)
    } else if name == ".bash_logout"@ {
        Some(IconTheme::SHELL)
    } else if name == ".bash_profile"@ {
        Some(IconTheme::SHELL)
    } else if name == ".bashrc"@ {
        Some(IconTheme::SHELL)
    } else if name == "Cargo.lock"@ {
        Some(IconTheme::RUST)
    } else if name == "Cargo.toml"@ {
        Some(IconTheme::RUST)
    } else if name == "Cargo.toml.orig"@ {
        Some(IconTheme::RUST)
    } else if name == "config"@ {
        Some(IconTheme::CONFIG)
    } else if name == ".csproj"@ {
        Some(IconTheme::CSHARP)
    } else if name == ".gitattributes"@ {
        Some(IconTheme::GIT)
    } else if name == ".gitconfig"@ {
        Some(IconTheme::GIT)
    } else if name == ".gitignore"@ {
        Some(IconTheme::GIT)
    } else if name == ".gitmodules"@ {
        Some(IconTheme::GIT)
    } else if name == ".login"@ {
        Some(IconTheme::SHELL)
    } else if name == ".logout"@ {
        Some(IconTheme::SHELL)
    } else if name == "profile"@ {
        Some(IconTheme::SHELL)
    } else if name == ".profile"@ {
        Some(IconTheme::SHELL)
    } else if name == "requirements.txt"@ {
        Some(IconTheme::PYTHON)
    } else if name == ".vimrc"@ {
        Some(IconTheme::VIM)
    } else if name == "_vimrc"@ {
        Some(IconTheme::VIM)
    } else if name == ".zlogin"@ {
        Some(IconTheme::SHELL)
    } else if name == ".zlogout"@ {
        Some(IconTheme::SHELL)
    } else if name == ".zprofile"@ {
        Some(IconTheme::SHELL)
    } else if name == ".zshenv"@ {
        Some(IconTheme::SHELL)
    } else if name == ".zshrc"@ {
        Some(IconTheme::SHELL)
    } else if name == ".zsh_history"@ {
        Some(IconTheme::SHELL)
    } else if name == ".zsh_sessions"@ {
        Some(IconTheme::SHELL)
    } else {
        None
    }
}

/// The icon for a file by its extension; `default` for an empty or unknown
/// extension.
pub open spec fn extension_icon(default: Option<char>, extension: Seq<char>) -> Option<char> {
    if extension.len() == 0 {
        default
    } else if extension == "7z"@ {
        Some(IconTheme::COMPRESSED)
    } else if extension == "bash"@ {
        Some(IconTheme::SHELL)
    } else if extension == "bz2"@ {
        Some(IconTheme::COMPRESSED)
    } else if extension == "c"@ {
        Some('\u{e649}')
    } else if extension == "cc"@ {
        Some(IconTheme::CPP)
    } else if extension == "cfg"@ {
        Some(IconTheme::CONFIG)
    } else if extension == "class"@ {
        Some(IconTheme::JAVA)
    } else if extension == "conf"@ {
        Some(IconTheme::CONFIG)
    } else if extension == "cpp"@ {
        Some(IconTheme::CPP)
    } else if extension == "cs"@ {
        Some(IconTheme::CSHARP)
    } else if extension == "css"@ {
        Some('\u{e749}')
    } else if extension == "csx"@ {
        Some(IconTheme::CSHARP)
    } else if extension == "cxx"@ {
        Some(IconTheme::CPP)
    } else if extension == "db"@ {
        Some('\u{e706}')
    } else if extension == "diff"@ {
        Some('\u{e728}')
    } else if extension == "el"@ {
        Some(IconTheme::EMACS)
    } else if extension == "elc"@ {
        Some(IconTheme::EMACS)
    } else if extension == "gz"@ {
        Some(IconTheme::COMPRESSED)
    } else if extension == "h"@ {
        Some(IconTheme::HEADER)
    } else if extension == "hh"@ {
        Some(IconTheme::HEADER)
    } else if extension == "hpp"@ {
        Some(IconTheme::HEADER)
    } else if extension == "hxx"@ {
        Some(IconTheme::HEADER)
    } else if extension == "html"@ {
        Some('\u{e736}')
    } else if extension == "ini"@ {
        Some(IconTheme::CONFIG)
    } else if extension == "jar"@ {
        Some(IconTheme::JAVA)
    } else if extension == "java"@ {
        Some(IconTheme::JAVA)
    } else if extension == "json"@ {
        Some('\u{e60b}')
    } else if extension == "jpeg"@ {
        Some(IconTheme::IMAGE)
    } else if extension == "jpg"@ {
        Some(IconTheme::IMAGE)
    } else if extension == "js"@ {
        Some('\u{e74e}')
    } else if extension == "lock"@ {
        Some('\u{e672}')
    } else if extension == "lua"@ {
        Some(IconTheme::LUA)
    } else if extension == "md"@ {
        Some('\u{e73e}')
    } else if extension == "mp3"@ {
        Some('\u{f001}')
    } else if extension == "mp4"@ {
        Some('\u{f03d}')
    } else if extension == "otf"@ {
        Some(IconTheme::FONT)
    } else if extension == "pdf"@ {
        Some('\u{f1c1}')
    } else if extension == "png"@ {
        Some(IconTheme::IMAGE)
    } else if extension == "py"@ {
        Some(IconTheme::PYTHON)
    } else if extension == "pyc"@ {
        Some(IconTheme::PYTHON)
    } else if extension == "pyd"@ {
        Some(IconTheme::PYTHON)
    } else if extension == "pyi"@ {
        Some(IconTheme::PYTHON)
    } else if extension == "pyo"@ {
        Some(IconTheme::PYTHON)
    } else if extension == "pyw"@ {
        Some(IconTheme::PYTHON)
    } else if extension == "pyx"@ {
        Some(IconTheme::PYTHON)
    } else if extension == "pyz"@ {
        Some(IconTheme::PYTHON)
    } else if extension == "rs"@ {
        Some(IconTheme::RUST)
    } else if extension == "sh"@ {
        Some(IconTheme::SHELL)
    } else if extension == "ttf"@ {
        Some(IconTheme::FONT)
    } else if extension == "toml"@ {
        Some(IconTheme::CONFIG)
    } else if extension == "vim"@ {
        Some(IconTheme::VIM)
    } else if extension == "whl"@ {
        Some(IconTheme::PYTHON)
    } else if extension == "xz"@ {
        Some(IconTheme::COMPRESSED)
    } else if extension == "yml"@ {
        Some(IconTheme::CONFIG)
    } else if extension == "zip"@ {
        Some(IconTheme::COMPRESSED)
    } else if extension == "zsh"@ {
        Some(IconTheme::SHELL)
    } else {
        default
    }
}

/// The icon of a directory with a well-known name, if it has one.
pub open spec fn named_dir_icon(name: Seq<char>) -> Option<char> {
    if name == "bash-completion"@ {
        Some(IconTheme::SHELL)
    } else if name == ".cargo"@ {
        Some(IconTheme::RUST)
    } else if name == "emacs"@ {
        Some(IconTheme::EMACS)
    } else if name == ".emacs.d"@ {
        Some(IconTheme::EMACS)
    } else if name == "fonts"@ {
        Some(IconTheme::FONT)
    } else if name == ".git"@ {
        Some('\u{e5fb}')
    } else if name == ".github"@ {
        Some('\u{e65b}')
    } else if name == "__pycache__"@ {
        Some(IconTheme::PYTHON)
    } else if name == ".rustup"@ {
        Some(IconTheme::RUST)
    } else if name == ".venv"@ {
        Some(IconTheme::PYTHON)
    } else if name == "vim"@ {
        Some(IconTheme::VIM)
    } else if name == ".vim"@ {
        Some(IconTheme::VIM)
    } else if name == "vimfiles"@ {
        Some(IconTheme::VIM)
    } else if name == "zsh"@ {
        Some(IconTheme::SHELL)
    } else {
        None
    }
}

/// The icon for a regular file: none when file icons are off; else by its
/// name, then by its extension, then the default file icon.
pub open spec fn file_icon_spec(theme: IconTheme, name: Seq<char>, extension: Seq<char>) -> Option<char> {
    if theme.file is None {
        None
    } else if named_file_icon(name) is Some {
        named_file_icon(name)
    } else {
        extension_icon(theme.file, extension)
    }
}

/// The icon for a directory: none when directory icons are off; else by its
/// name, then the default directory icon.
pub open spec fn dir_icon_spec(theme: IconTheme, name: Seq<char>) -> Option<char> {
    if theme.dir is None {
        None
    } else if named_dir_icon(name) is Some {
        named_dir_icon(name)
    } else {
        theme.dir
    }
}

/// With file icons on, a file whose name has no icon of its own and whose
/// extension is `rs` gets the Rust icon, whatever the rest of its name.
pub proof fn law_rust_files_get_rust_icon(theme: IconTheme, name: Seq<char>)
    requires
        theme.file is Some,
        named_file_icon(name) is None,
    ensures
        file_icon_spec(theme, name, seq!['r', 's']) == Some('\u{e7a8}'),
{
    reveal_strlit("7z");
    assert("7z"@ =~= seq!['7', 'z']);
    reveal_strlit("bash");
    assert("bash"@ =~= seq!['b', 'a', 's', 'h']);
    reveal_strlit("bz2");
    assert("bz2"@ =~= seq!['b', 'z', '2']);
    reveal_strlit("c");
    assert("c"@ =~= seq!['c']);
    reveal_strlit("cc");
    assert("cc"@ =~= seq!['c', 'c']);
    reveal_strlit("cfg");
    assert("cfg"@ =~= seq!['c', 'f', 'g']);
    reveal_strlit("class");
    assert("class"@ =~= seq!['c', 'l', 'a', 's', 's']);
    reveal_strlit("conf");
    assert("conf"@ =~= seq!['c', 'o', 'n', 'f']);
    reveal_strlit("cpp");
    assert("cpp"@ =~= seq!['c', 'p', 'p']);
    reveal_strlit("cs");
    assert("cs"@ =~= seq!['c', 's']);
    reveal_strlit("css");
    assert("css"@ =~= seq!['c', 's', 's']);
    reveal_strlit("csx");
    assert("csx"@ =~= seq!['c', 's', 'x']);
    reveal_strlit("cxx");
    assert("cxx"@ =~= seq!['c', 'x', 'x']);
    reveal_strlit("db");
    assert("db"@ =~= seq!['d', 'b']);
    reveal_strlit("diff");
    assert("diff"@ =~= seq!['d', 'i', 'f', 'f']);
    reveal_strlit("el");
    assert("el"@ =~= seq!['e', 'l']);
    reveal_strlit("elc");
    assert("elc"@ =~= seq!['e', 'l', 'c']);
    reveal_strlit("gz");
    assert("gz"@ =~= seq!['g', 'z']);
    reveal_strlit("h");
    assert("h"@ =~= seq!['h']);
    reveal_strlit("hh");
    assert("hh"@ =~= seq!['h', 'h']);
    reveal_strlit("hpp");
    assert("hpp"@ =~= seq!['h', 'p', 'p']);
    reveal_strlit("hxx");
    assert("hxx"@ =~= seq!['h', 'x', 'x']);
    reveal_strlit("html");
    assert("html"@ =~= seq!['h', 't', 'm', 'l']);
    reveal_strlit("ini");
    assert("ini"@ =~= seq!['i', 'n', 'i']);
    reveal_strlit("jar");
    assert("jar"@ =~= seq!['j', 'a', 'r']);
    reveal_strlit("java");
    assert("java"@ =~= seq!['j', 'a', 'v', 'a']);
    reveal_strlit("json");
    assert("json"@ =~= seq!['j', 's', 'o', 'n']);
    reveal_strlit("jpeg");
    assert("jpeg"@ =~= seq!['j', 'p', 'e', 'g']);
    reveal_strlit("jpg");
    assert("jpg"@ =~= seq!['j', 'p', 'g']);
    reveal_strlit("js");
    assert("js"@ =~= seq!['j', 's']);
    reveal_strlit("lock");
    assert("lock"@ =~= seq!['l', 'o', 'c', 'k']);
    reveal_strlit("lua");
    assert("lua"@ =~= seq!['l', 'u', 'a']);
    reveal_strlit("md");
    assert("md"@ =~= seq!['m', 'd']);
    reveal_strlit("mp3");
    assert("mp3"@ =~= seq!['m', 'p', '3']);
    reveal_strlit("mp4");
    assert("mp4"@ =~= seq!['m', 'p', '4']);
    reveal_strlit("otf");
    assert("otf"@ =~= seq!['o', 't', 'f']);
    reveal_strlit("pdf");
    assert("pdf"@ =~= seq!['p', 'd', 'f']);
    reveal_strlit("png");
    assert("png"@ =~= seq!['p', 'n', 'g']);
    reveal_strlit("py");
    assert("py"@ =~= seq!['p', 'y']);
    reveal_strlit("pyc");
    assert("pyc"@ =~= seq!['p', 'y', 'c']);
    reveal_strlit("pyd");
    assert("pyd"@ =~= seq!['p', 'y', 'd']);
    reveal_strlit("pyi");
    assert("pyi"@ =~= seq!['p', 'y', 'i']);
    reveal_strlit("pyo");
    assert("pyo"@ =~= seq!['p', 'y', 'o']);
    reveal_strlit("pyw");
    assert("pyw"@ =~= seq!['p', 'y', 'w']);
    reveal_strlit("pyx");
    assert("pyx"@ =~= seq!['p', 'y', 'x']);
    reveal_strlit("pyz");
    assert("pyz"@ =~= seq!['p', 'y', 'z']);
    reveal_strlit("rs");
    assert("rs"@ =~= seq!['r', 's']);
}

impl IconTheme {
    pub const DEFAULT_FILE: char = '\u{f4a5}';
    pub const DEFAULT_DIR: char = '\u{f4d3}';
    pub const DEFAULT_SYMLINK: char = '\u{f481}';
    pub const DEFAULT_BLOCK_DEVICE: char = '\u{f129f}';
    pub const DEFAULT_CHAR_DEVICE: char = '\u{f065c}';
    pub const DEFAULT_FIFO: char = '|';
    pub const DEFAULT_SOCKET: char = '=';
    pub const COMPRESSED: char = '\u{f410}';
    pub const CONFIG: char = '\u{e615}';
    pub const CPP: char = '\u{e646}';
    pub const CSHARP: char = '\u{e648}';
    pub const EMACS: char = '\u{e632}';
    pub const FONT: char = '\u{e659}';
    pub const GIT: char = '\u{e702}';
    pub const HEADER: char = '\u{f0fd}';
    pub const IMAGE: char = '\u{f1c5}';
    pub const JAVA: char = '\u{e738}';
    pub const LUA: char = '\u{e620}';
    pub const PYTHON: char = '\u{e73c}';
    pub const RUST: char = '\u{e7a8}';
    pub const SHELL: char = '\u{ebca}';
    pub const VIM: char = '\u{e7c5}';

    /// The theme without icons.
    pub open spec fn new_spec() -> IconTheme {
        IconTheme {
            file: None,
            dir: None,
            symlink: None,
            block_device: None,
            char_device: None,
            fifo: None,
            socket: None,
        }
    }

    /// No icons at all.
    pub fn new() -> (r: Self)
        ensures
            r == IconTheme::new_spec(),
            r.file is None,
            r.dir is None,
            r.symlink is None,
            r.block_device is None,
            r.char_device is None,
            r.fifo is None,
            r.socket is None,
    {
        IconTheme {
            file: None,
            dir: None,
            symlink: None,
            block_device: None,
            char_device: None,
            fifo: None,
            socket: None,
        }
    }

    /// The theme with the default icon for every file type.
    pub open spec fn default_icons_spec() -> IconTheme {
        IconTheme {
            file: Some(IconTheme::DEFAULT_FILE),
            dir: Some(IconTheme::DEFAULT_DIR),
            symlink: Some(IconTheme::DEFAULT_SYMLINK),
            block_device: Some(IconTheme::DEFAULT_BLOCK_DEVICE),
            char_device: Some(IconTheme::DEFAULT_CHAR_DEVICE),
            fifo: Some(IconTheme::DEFAULT_FIFO),
            socket: Some(IconTheme::DEFAULT_SOCKET),
        }
    }

    /// The default icon for every file type.
    pub fn with_default_icons() -> (r: Self)
        ensures
            r == IconTheme::default_icons_spec(),
            r.file == Some(IconTheme::DEFAULT_FILE),
            r.dir == Some(IconTheme::DEFAULT_DIR),
            r.symlink == Some(IconTheme::DEFAULT_SYMLINK),
            r.block_device == Some(IconTheme::DEFAULT_BLOCK_DEVICE),
            r.char_device == Some(IconTheme::DEFAULT_CHAR_DEVICE),
            r.fifo == Some(IconTheme::DEFAULT_FIFO),
            r.socket == Some(IconTheme::DEFAULT_SOCKET),
    {
        IconTheme {
            file: Some(IconTheme::DEFAULT_FILE),
            dir: Some(IconTheme::DEFAULT_DIR),
            symlink: Some(IconTheme::DEFAULT_SYMLINK),
            block_device: Some(IconTheme::DEFAULT_BLOCK_DEVICE),
            char_device: Some(IconTheme::DEFAULT_CHAR_DEVICE),
            fifo: Some(IconTheme::DEFAULT_FIFO),
            socket: Some(IconTheme::DEFAULT_SOCKET),
        }
    }

    /// The icon for a regular file with the given name and extension.
    pub fn file_icon(&self, file_name: &str, extension: &str) -> (r: Option<char>)
        ensures
            r == file_icon_spec(*self, file_name@, extension@),
    {
        if self.file.is_none() {
            None
        } else {
            let named = Self::named_file_icon(file_name);
            if named.is_some() {
                named
            } else {
                self.file_icon_by_extension(extension)
            }
        }
    }

    fn named_file_icon(file_name: &str) -> (r: Option<char>)
        ensures
            r == named_file_icon(file_name@),
    {
        if str_eq(file_name, "bash.bashrc") {
            Some(IconTheme::SHELL)
        } else if str_eq(file_name, ".bash_aliases") {
            Some(IconTheme::SHELL)
        } else if str_eq(file_name, ".bash_history") {
            Some(IconTheme::SHELL)
        } else if str_eq(file_name, ".bash_login") {
            Some(IconTheme::SHELL)
        } else if str_eq(file_name, ".bash_logout") {
            Some(IconTheme::SHELL)
        } else if str_eq(file_name, ".bash_profile") {
            Some(IconTheme::SHELL)
        } else if str_eq(file_name, ".bashrc") {
            Some(IconTheme::SHELL)
        } else if str_eq(file_name, "Cargo.lock") {
            Some(IconTheme::RUST)
        } else if str_eq(file_name, "Cargo.toml") {
            Some(IconTheme::RUST)
        } else if str_eq(file_name, "Cargo.toml.orig") {
            Some(IconTheme::RUST)
        } else if str_eq(file_name, "config") {
            Some(IconTheme::CONFIG)
        } else if str_eq(file_name, ".csproj") {
            Some(IconTheme::CSHARP)
        } else if str_eq(file_name, ".gitattributes") {
            Some(IconTheme::GIT)
        } else if str_eq(file_name, ".gitconfig") {
            Some(IconTheme::GIT)
        } else if str_eq(file_name, ".gitignore") {
            Some(IconTheme::GIT)
        } else if str_eq(file_name, ".gitmodules") {
            Some(IconTheme::GIT)
        } else if str_eq(file_name, ".login") {
            Some(IconTheme::SHELL)
        } else if str_eq(file_name, ".logout") {
            Some(IconTheme::SHELL)
        } else if str_eq(file_name, "profile") {
            Some(IconTheme::SHELL)
        } else if str_eq(file_name, ".profile") {
            Some(IconTheme::SHELL)
        } else if str_eq(file_name, "requirements.txt") {
            Some(IconTheme::PYTHON)
        } else if str_eq(file_name, ".vimrc") {
            Some(IconTheme::VIM)
        } else if str_eq(file_name, "_vimrc") {
            Some(IconTheme::VIM)
        } else if str_eq(file_name, ".zlogin") {
            Some(IconTheme::SHELL)
        } else if str_eq(file_name, ".zlogout") {
            Some(IconTheme::SHELL)
        } else if str_eq(file_name, ".zprofile") {
            Some(IconTheme::SHELL)
        } else if str_eq(file_name, ".zshenv") {
            Some(IconTheme::SHELL)
        } else if str_eq(file_name, ".zshrc") {
            Some(IconTheme::SHELL)
        } else if str_eq(file_name, ".zsh_history") {
            Some(IconTheme::SHELL)
        } else if str_eq(file_name, ".zsh_sessions") {
            Some(IconTheme::SHELL)
        } else {
            None
        }
    }

    fn file_icon_by_extension(&self, extension: &str) -> (r: Option<char>)
        ensures
            r == extension_icon(self.file, extension@),
    {
        if extension.unicode_len() == 0 {
            self.file
        } else if str_eq(extension, "7z") {
            Some(IconTheme::COMPRESSED)
        } else if str_eq(extension, "bash") {
            Some(IconTheme::SHELL)
        } else if str_eq(extension, "bz2") {
            Some(IconTheme::COMPRESSED)
        } else if str_eq(extension, "c") {
            Some('\u{e649}')
        } else if str_eq(extension, "cc") {
            Some(IconTheme::CPP)
        } else if str_eq(extension, "cfg") {
            Some(IconTheme::CONFIG)
        } else if str_eq(extension, "class") {
            Some(IconTheme::JAVA)
        } else if str_eq(extension, "conf") {
            Some(IconTheme::CONFIG)
        } else if str_eq(extension, "cpp") {
            Some(IconTheme::CPP)
        } else if str_eq(extension, "cs") {
            Some(IconTheme::CSHARP)
        } else if str_eq(extension, "css") {
            Some('\u{e749}')
        } else if str_eq(extension, "csx") {
            Some(IconTheme::CSHARP)
        } else if str_eq(extension, "cxx") {
            Some(IconTheme::CPP)
        } else if str_eq(extension, "db") {
            Some('\u{e706}')
        } else if str_eq(extension, "diff") {
            Some('\u{e728}')
        } else if str_eq(extension, "el") {
            Some(IconTheme::EMACS)
        } else if str_eq(extension, "elc") {
            Some(IconTheme::EMACS)
        } else if str_eq(extension, "gz") {
            Some(IconTheme::COMPRESSED)
        } else if str_eq(extension, "h") {
            Some(IconTheme::HEADER)
        } else if str_eq(extension, "hh") {
            Some(IconTheme::HEADER)
        } else if str_eq(extension, "hpp") {
            Some(IconTheme::HEADER)
        } else if str_eq(extension, "hxx") {
            Some(IconTheme::HEADER)
        } else if str_eq(extension, "html") {
            Some('\u{e736}')
        } else if str_eq(extension, "ini") {
            Some(IconTheme::CONFIG)
        } else if str_eq(extension, "jar") {
            Some(IconTheme::JAVA)
        } else if str_eq(extension, "java") {
            Some(IconTheme::JAVA)
        } else if str_eq(extension, "json") {
            Some('\u{e60b}')
        } else if str_eq(extension, "jpeg") {
            Some(IconTheme::IMAGE)
        } else if str_eq(extension, "jpg") {
            Some(IconTheme::IMAGE)
        } else if str_eq(extension, "js") {
            Some('\u{e74e}')
        } else if str_eq(extension, "lock") {
            Some('\u{e672}')
        } else if str_eq(extension, "lua") {
            Some(IconTheme::LUA)
        } else if str_eq(extension, "md") {
            Some('\u{e73e}')
        } else if str_eq(extension, "mp3") {
            Some('\u{f001}')
        } else if str_eq(extension, "mp4") {
            Some('\u{f03d}')
        } else if str_eq(extension, "otf") {
            Some(IconTheme::FONT)
        } else if str_eq(extension, "pdf") {
            Some('\u{f1c1}')
        } else if str_eq(extension, "png") {
            Some(IconTheme::IMAGE)
        } else if str_eq(extension, "py") {
            Some(IconTheme::PYTHON)
        } else if str_eq(extension, "pyc") {
            Some(IconTheme::PYTHON)
        } else if str_eq(extension, "pyd") {
            Some(IconTheme::PYTHON)
        } else if str_eq(extension, "pyi") {
            Some(IconTheme::PYTHON)
        } else if str_eq(extension, "pyo") {
            Some(IconTheme::PYTHON)
        } else if str_eq(extension, "pyw") {
            Some(IconTheme::PYTHON)
        } else if str_eq(extension, "pyx") {
            Some(IconTheme::PYTHON)
        } else if str_eq(extension, "pyz") {
            Some(IconTheme::PYTHON)
        } else if str_eq(extension, "rs") {
            Some(IconTheme::RUST)
        } else if str_eq(extension, "sh") {
            Some(IconTheme::SHELL)
        } else if str_eq(extension, "ttf") {
            Some(IconTheme::FONT)
        } else if str_eq(extension, "toml") {
            Some(IconTheme::CONFIG)
        } else if str_eq(extension, "vim") {
            Some(IconTheme::VIM)
        } else if str_eq(extension, "whl") {
            Some(IconTheme::PYTHON)
        } else if str_eq(extension, "xz") {
            Some(IconTheme::COMPRESSED)
        } else if str_eq(extension, "yml") {
            Some(IconTheme::CONFIG)
        } else if str_eq(extension, "zip") {
            Some(IconTheme::COMPRESSED)
        } else if str_eq(extension, "zsh") {
            Some(IconTheme::SHELL)
        } else {
            self.file
        }
    }

    /// The icon for a directory with the given name.
    pub fn dir_icon(&self, file_name: &str) -> (r: Option<char>)
        ensures
            r == dir_icon_spec(*self, file_name@),
    {
        if self.dir.is_none() {
            None
        } else {
            let named = Self::named_dir_icon(file_name);
            if named.is_some() {
                named
            } else {
                self.dir
            }
        }
    }

    fn named_dir_icon(file_name: &str) -> (r: Option<char>)
        ensures
            r == named_dir_icon(file_name@),
    {
        if str_eq(file_name, "bash-completion") {
            Some(IconTheme::SHELL)
        } else if str_eq(file_name, ".cargo") {
            Some(IconTheme::RUST)
        } else if str_eq(file_name, "emacs") {
            Some(IconTheme::EMACS)
        } else if str_eq(file_name, ".emacs.d") {
            Some(IconTheme::EMACS)
        } else if str_eq(file_name, "fonts") {
            Some(IconTheme::FONT)
        } else if str_eq(file_name, ".git") {
            Some('\u{e5fb}')
        } else if str_eq(file_name, ".github") {
            Some('\u{e65b}')
        } else if str_eq(file_name, "__pycache__") {
            Some(IconTheme::PYTHON)
        } else if str_eq(file_name, ".rustup") {
            Some(IconTheme::RUST)
        } else if str_eq(file_name, ".venv") {
            Some(IconTheme::PYTHON)
        } else if str_eq(file_name, "vim") {
            Some(IconTheme::VIM)
        } else if str_eq(file_name, ".vim") {
            Some(IconTheme::VIM)
        } else if str_eq(file_name, "vimfiles") {
            Some(IconTheme::VIM)
        } else if str_eq(file_name, "zsh") {
            Some(IconTheme::SHELL)
        } else {
            None
        }
    }

    pub fn symlink_icon(&self) -> (r: Option<char>)
        ensures
            r == self.symlink,
    {
        self.symlink
    }

    pub fn block_device_icon(&self) -> (r: Option<char>)
        ensures
            r == self.block_device,
    {
        self.block_device
    }

    pub fn char_device_icon(&self) -> (r: Option<char>)
        ensures
            r == self.char_device,
    {
        self.char_device
    }

    pub fn fifo_icon(&self) -> (r: Option<char>)
        ensures
            r == self.fifo,
    {
        self.fifo
    }

    pub fn socket_icon(&self) -> (r: Option<char>)
        ensures
            r == self.socket,
    {
        self.socket
    }
}

impl Default for IconTheme {
    fn default() -> (r: Self)
        ensures
            r.file is None,
            r.dir is None,
            r.symlink is None,
            r.block_device is None,
            r.char_device is None,
            r.fifo is None,
            r.socket is None,
    {
        IconTheme::new()
    }
}

} // verus!
