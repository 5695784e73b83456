# dlopen

Opening dynamic link libraries and reading their symbols, with every rule that
decides an outcome verified by Verus.

- `src/` is the verified library. It holds the rules: how names become the
  nul-terminated strings the loader reads (`cstr`), what the loader's answers
  mean (`raw::common`, `raw::unix`, `raw::windows`), the process error mode and
  symbol-handler counters shared by threads on Windows (`raw::windows`), the
  errors and their messages (`err`), the typed symbols kept as addresses
  (`symbols`, `symbor`), optional APIs (`wrapper`) and library file names
  (`utils`). Addresses are `usize`, 0 standing for null.
- `app/` is the platform side: it calls `dlopen`, `dlsym`, `dladdr`, `dlclose`
  (and their Windows counterparts), owns the handles, and turns addresses into
  typed symbols. It hands each answer to the verified functions and acts on
  what they decide.
- `tests/` runs the verified functions on concrete values.
