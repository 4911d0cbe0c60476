//! Windows file attribute and access-right bits, with the values the
//! Windows SDK gives them.

use vstd::prelude::*;

verus! {

pub const FILE_ATTRIBUTE_READONLY: u32 = 0x1;
pub const FILE_ATTRIBUTE_HIDDEN: u32 = 0x2;
pub const FILE_ATTRIBUTE_SYSTEM: u32 = 0x4;
pub const FILE_ATTRIBUTE_DIRECTORY: u32 = 0x10;
pub const FILE_ATTRIBUTE_ARCHIVE: u32 = 0x20;
pub const FILE_ATTRIBUTE_REPARSE_POINT: u32 = 0x400;

pub const FILE_GENERIC_READ: u32 = 0x120089;
pub const FILE_GENERIC_WRITE: u32 = 0x120116;
pub const FILE_GENERIC_EXECUTE: u32 = 0x1200a0;

} // verus!
