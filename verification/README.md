# tuhucar

The TuhuCar command-line client: car-model matching and car-care knowledge
queries over an MCP (JSON-RPC over HTTP) gateway, with a JSON or markdown
response envelope, update notices, and installation of assistant skills.

## Layout

- `src/` is the library, written in Verus. Every function carries a
  contract over mathematical models (`Seq<char>` for text, spec functions
  for formats and decisions), and the laws of the client are public proof
  functions.
  - `text`, `decimal`: character-level helpers and decimal numbers, with
    round-trip lemmas.
  - `error`, `types`, `output`: errors and how they are reported, the
    response envelope, and its markdown form.
  - `config`, `update`: configuration paths and defaults; when to look for
    a newer release and which notice to show.
  - `json`: the `serde_json` document type and the member reads made of it.
  - `mcp`: endpoint choice, reply framing (plain JSON or event stream),
    session set-up and tool results.
  - `knowledge`, `car`: the two commands, their identifiers, results and
    error schemas.
  - `cli`: front-end decisions and the texts written to the terminal.
  - `skill`: skill-installation outcomes and summaries, the candidate
    platform directories and which of them is used, and the removal of legacy plugin entries from an OpenCode
    configuration file (parsed and rewritten with `serde_json`).
- `tests/`: tests of the library on concrete values.
- `app/`: the program around the library: argument parsing, files, the
  network, the clock, JSON and TOML encoding, and the async runtime.
