# rust_homework

A static analysis tool for Rust, Python and C/C++ sources. It counts lines
(code, comment, blank), functions and structural constructs, checks a set of
rules (unwrap/expect, unfinished markers, risky calls, long lines and
functions, too many parameters, large files, deep nesting), and writes a text,
JSON or HTML report. Text and HTML show only findings of severity Warning and
Error; JSON keeps everything.

Layout:

- `src/` — the library, verified with Verus:
  - `text.rs`: character-level primitives (trim, find, counts, decimals) with
    their specifications;
  - `rules.rs`: what the analysis of a file reports, as specifications over
    its lines;
  - `analyzer.rs`: file selection, per-file analysis and the project report;
  - `model.rs`: configuration, findings, reports and the summary;
  - `report.rs`: text and HTML rendering;
  - `laws.rs`: properties proved of every analysis and report;
  - `html_laws.rs`: the HTML report holds one file card per file, one
    function entry per detected function and one finding entry per shown
    finding.
- `app/` — the command-line program: argument parsing, directory walk, file
  reading, JSON serialization and output.
- `tests/` — tests of the library.
