//! Platform-specific file metadata rendering.

pub mod unix;
pub mod windows;
