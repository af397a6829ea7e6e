# dsa_spec

Code-skeleton generation from data-structure and algorithm specifications
(DSA-SPEC), with the specification logic verified by Verus.

- `src/` is the verified library: the specification AST and everything
  computed from it — assertion parsing, identifier casing, type translation
  for Rust, Python, TypeScript, C# and Go, the template contexts and the
  list of files each backend renders, contract injection, Markdown
  documentation, DOT/Mermaid diagrams, complexity reports and the version
  step of a migration. Each public function states its result exactly over
  spec functions; the `law_*` proof functions state properties that span
  functions or hold of every input.
- `app/` is the command line: YAML parsing and JSON-schema validation,
  Tera rendering of the planned files, external formatters, and file I/O.
- `tests/` runs the library on concrete inputs.
