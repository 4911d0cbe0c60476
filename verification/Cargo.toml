[package]
name = "nls_ls"
version = "0.1.0"
edition = "2021"
publish = false

[dependencies]
chrono = "*"
ignore = "*"
lexopt = "*"
libc = "*"
log = "*"
nls_term_grid = "*"
once_cell = "*"
size_fmt = "*"
terminal_size = "*"
unicode-width = "*"
user_utils = "*"
itoa = "*"
compact_str = "*"
