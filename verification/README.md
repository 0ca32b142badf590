# backup_zip

Backs up a directory tree into `<path>-<timestamp>.zip`: the tree is copied
into a staging directory, leaving out dependency caches, build outputs,
Visual C++ caches and earlier archives, and the copy is packed with 7-Zip.

- `src/` is the library, verified with Verus: which entries are copied
  (`application`), path syntax (`pathname`) and regular-expression search
  (`pattern`) as trusted calls into `std::path` and `regex`, the clock
  renderings of elapsed time (`helpers`, `decimal`), the stopwatch
  (`timeutil`), time stamps (`util`) and console answers (`ioutil`).
- `app/` is the program: arguments, the file-system walk and copies,
  running 7-Zip, and console input and output.
- `tests/` runs the library against the real `std`, `regex` and `chrono`.
