# fsapp

The logic of the `fsapp` and `fset` command-line tools, verified with Verus:
the config file's schema and range rules, `<section>.<key>` addressing for
`fset get/set/unset`, the precedence of command-line flags, environment
variables and the config file, config and cache paths and backup names,
the recovery flow for an invalid config file, the progress bar's state and
text, operation summaries and the `analyze` report, exit codes, the update
check's cache and version comparison, and shell-completion install plans.

Layout:

- `src/` — the verified library. Each public function states its result
  in `ensures`; laws that relate several functions are public proof
  functions (`law_*`).
- `tests/` — scenarios run against the compiled library.
- `app/` — the two programs around the library: argument parsing, files,
  the network, the terminal, and the file engine's async operations. One
  binary serves both names and looks at the name it was started as.
