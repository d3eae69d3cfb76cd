# Baker

Baker is a project scaffolding tool: it asks the questions of a template's
`baker.yaml`, renders the template's files with the answers, runs the
template's hooks, keeps installed templates in a local store, updates a
generated project when its template changes, and serves its templates to
MCP clients.

## Layout

- `src/` is the library, verified with Verus. Public functions state
  their results in `ensures`; the proof functions named `law_*` state
  properties that span several functions.
  - `conflict`: line-based merging with git-style conflict markers.
  - `config`: the configuration model, its validation and question
    rendering.
  - `cli`: command-line arguments, answer collection, hooks, generation and
    update decisions.
  - `store`: the template store's paths, names, listings and timestamps.
  - `loader`: which kind of source a template argument names.
  - `ignore`, `globs`, `import`: `.bakerignore` patterns and glob sets.
  - `web`: the model of the web front end (registry and search, forms,
    rendering, preview, GitHub requests, the state of the page).
  - `mcp`: the MCP tools' descriptions and outcomes.
  - `schema`: checking a value against a JSON schema with `jsonschema`.
  - `json`, `text`, `paths`: JSON values and their JSON text,
    character-level text helpers and path joining, each with its
    specification.
- `app/` is the `baker` program: argument parsing, file and process I/O,
  the minijinja environment behind the library's template-engine trait,
  parsing JSON and YAML text into the library's values, terminal prompts and the MCP server.
- `tests/` exercises the library from outside, with fake engines and with
  the real template engine.
