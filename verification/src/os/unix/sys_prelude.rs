//! File-type and permission bits of `st_mode`, with the values Linux gives
//! them (`libc::S_IF*` and `libc::S_I*`).

use vstd::prelude::*;

verus! {

pub const S_IFMT: u32 = 0o170000;

pub const S_IFSOCK: u32 = 0o140000;

pub const S_IFLNK: u32 = 0o120000;

pub const S_IFREG: u32 = 0o100000;

pub const S_IFBLK: u32 = 0o060000;

pub const S_IFDIR: u32 = 0o040000;

pub const S_IFCHR: u32 = 0o020000;

pub const S_IFIFO: u32 = 0o010000;

pub const S_ISUID: u32 = 0o4000;

pub const S_ISGID: u32 = 0o2000;

pub const S_ISVTX: u32 = 0o1000;

pub const S_IRUSR: u32 = 0o400;

pub const S_IWUSR: u32 = 0o200;

pub const S_IXUSR: u32 = 0o100;

pub const S_IRGRP: u32 = 0o040;

pub const S_IWGRP: u32 = 0o020;

pub const S_IXGRP: u32 = 0o010;

pub const S_IROTH: u32 = 0o004;

pub const S_IWOTH: u32 = 0o002;

pub const S_IXOTH: u32 = 0o001;

} // verus!
