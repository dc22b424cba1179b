# pixi-pfx

A command-line client for the [prefix.dev](https://prefix.dev) GraphQL API
(usable as the pixi plugin `pixi pfx`), whose core is verified with Verus.
Results are printed as JSON (`{"data": ..., "ok": true}`, or
`{"error": {"code": ..., "message": ...}, "ok": false}`) unless `--human`
asks for tables and key/value lists.

## Layout

- `src/` — the verified library:
  - `cli.rs`: the commands and their arguments;
  - `commands/`: which GraphQL operation each command sends (`channel`,
    `package`, `auth`), the checks on package files to copy, the page-by-page
    search of a source channel for files to copy (`resolve`), and the JSON
    description of the command tree (`describe`);
  - `client.rs`: the credentials a request carries and what an answer of the
    API means;
  - `response.rs`: what a command shows of an answer's data (the value at
    the path each operation's result lies at, with the field names its
    response types give it);
  - `json.rs`, `json_map.rs`, `json_text.rs`: JSON values, objects kept as
    maps, and their compact and pretty text; `json_parse.rs`: reading that
    text back, and the proofs that the printed reports read back as the
    values written;
  - `format.rs`, `report.rs`, `error.rs`: the human renderings, what is
    printed at the end and with which exit status, and the error reports;
  - `queries/`: the operations' variables; `text.rs`, `urls.rs`: decimal
    text, string helpers, and URL parsing by the `url` crate.
- `app/` — the program around it: command-line parsing (clap), the GraphQL
  documents, HTTP (reqwest), credentials storage (rattler_networking), and
  the loop that fetches the pages the copy search asks for.
- `tests/` — tests of the library.
