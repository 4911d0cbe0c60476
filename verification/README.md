# nls_ls

The core of `nls`, an `ls` clone, as a Verus-verified library, with the
program around it.

- `src/` is the library. `args` reads the command line into a
  configuration; `entry` holds what is known of a file; `output` builds
  the cells of each column, sorts entries and lays them out in a single
  column, a grid or the long format; `os::unix` and `os::windows` render
  permissions, device numbers and account names; `ls_colors` and `theme`
  hold the colours and icons; `listing` makes the decisions around a
  listing; `logger` formats diagnostics.
- `app/main.rs` is the program: it reads the environment, the terminal and
  the file system, walks directories, and prints what the library lays
  out.
- `tests/` runs the library on concrete values.
