# dev_scope

`scope` helps developer-experience teams describe a working environment and fix it:
`scope doctor` runs groups of checks and fixes, `scope analyze` looks for known errors in
output, and `scope report` turns a failing command into a bug report.

## Layout

- `src/` is the verified library (Verus). It holds the configuration models and their
  conversion (`v1alpha`, `models`, `report_config`), command preparation (`command`,
  `words`), the decisions of a doctor action (`check`) and of a run (`runner`,
  `doctor_run`, `outcome`), the file cache (`file_cache`), known-error scanning
  (`analyze`), output capture and interleaving (`capture`, `reader`), configuration
  discovery (`config`), listings (`listing`), report assembly (`report`,
  `report_context`) and report rendering (`render`, with the template context encoded as
  JSON by `json`).
- `app/` is the `scope` command line: argument parsing, reading YAML, running processes,
  prompting and writing reports. It performs the work the library's
  decisions ask for.
- `tests/` exercises the library on concrete values.

Not included: redaction of sensitive values in captured output (and with it the
time-prefixed capture text that is redacted before it is shown), whose rules are not part
of this code base, and the logging and telemetry set-up of the command line.
