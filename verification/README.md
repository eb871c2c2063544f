# datatest

Data-driven tests. A test is written once and run on each file below a directory whose path matches a
regular expression, or on each of a list of cases; regular tests stand beside them.

- `src/` is the library, verified with Verus. `runner::runner` expands descriptors of tests into the
  tests that a harness runs, and `laws` states what holds of the library as a whole.
- `tests/` are its tests.
- `app/` is the runner of a process: it walks through directories, keeps the registry and hands the
  rendered tests to the console of the compiler's harness.

What is trusted and not proved: that `Regex::new`, `Regex::is_match` and `Regex::replace_all` of the
`regex` crate and `Path::strip_prefix` of `std` are functions of the texts they are called with.
