# crabkit

A collection of verified pieces of compiler tooling: lint decisions, macro
argument readers, a borrow-tracking policy, a command-line parser, a table of
benchmark measurements and a few small data structures. Each function states
its behaviour in `requires`/`ensures` clauses, and Verus proves the code
against them.

Layout:

- `src/` — the verified library, one module per subject:
  - `xtask`, `metrics`: the build helper's command line and its benchmark
    measurements (parsing `METRIC` lines, a name-sorted table, the host
    description);
  - `attrs`, `default_lint`, `operators`, `case_mismatch`, `misc_lints`,
    `expr_lints`, `type_lints`, `ptr_args`: lint decisions, over plain values
    that describe the compiler's view of the code;
  - `tree_borrows`: the permission policy and the retagging decisions of Tree
    Borrows;
  - `transitive_relation`: a relation and its transitive closure from one
    element, proved sound and complete;
  - `assert_macro`, `cfg_if`, `path_transform`, `symbol_names`, `codegen`,
    `target`, `thread`, `mini_core`: macro expansion, the formatter's
    `cfg_if!` reader, IDE path substitution, symbol-name test outputs, back-end
    declarations, a target description, enclave threads and core lang items;
  - `fmt_config`: the formatter's `--config` overrides and `--print-config`;
  - `text`, `decimal`, `diag`: strings, numbers and diagnostics shared by the
    rest.
- `tests/` — tests on concrete values, run against the compiled library.
- `app/` — the `xtask` program: command line from the environment, shell
  commands, files, the clock and the JSON output around the library.
