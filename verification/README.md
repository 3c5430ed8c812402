# oag

Core of a declarative OpenAPI code generator, written in Verus. A template
pack (a manifest plus minijinja templates) turns the intermediate
representation of an API into source files and write-once scaffold files.

Layout:

- `src/` — the verified library.
  - `ir.rs`: the intermediate representation.
  - `type_map.rs`: IR types to target-language type syntax.
  - `context/`: the data handed to templates (operations, parameters, hooks,
    schemas, guards, test cases, imports) and its JSON form.
  - `engine.rs`, `generate.rs`, `render.rs`: which templates become which
    files, and the minijinja environment that renders them.
  - `config.rs`, `pack.rs`: generator configuration, legacy configuration
    conversion, pack manifests and pack inheritance.
  - `sse_detector.rs`: return types of operations that stream events.
  - `github.rs`, `resolve.rs`, `cli.rs`: pack specifiers and URLs, where packs
    live, and the decisions of the command line.
  - `laws.rs`: properties that span several functions.
- `tests/` — tests of the library.

Not covered: for the bundled layout the library renders the sections in
order and gives them, with the path of the one file, to the caller; joining
them into that file is not done here, and the command-line tool stops with an
error on this layout. The split layout takes its operation groups from the
caller. Generated files are not whitespace-normalised after rendering.
- `app/` — the command-line program: file and network I/O, YAML/TOML
  loading, and running formatters and validators.
