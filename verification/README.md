# kagi

A Rust library, verified with Verus, for Kagi's two protocol surfaces — the
official API (`Authorization: Bot <token>`, JSON envelopes under `/api/v0`
and `/api/v1`) and the session web (`Cookie: kagi_session=<token>`, HTML
search and summary streams) — and for the decisions of an MCP server that
exposes Kagi search and summarization as two tools.

The library plans every request (endpoint, method, URL, auth header, query
and body) and reads every answer; an HTTP client only carries the exchange.

## Layout

- `src/` — the verified library.
  - `routing`, `auth`, `boundary`, `config`, `client`, `error`: endpoints,
    credentials, validated inputs, configuration and errors.
  - `transport`, `official_api`, `session_web`: request plans and the
    reading of answers on each surface.
  - `parsing`: the HTML search page, summary streams, summary JSON and
    failure payloads.
  - `json`, `html`, `weburl`, `text`: JSON, HTML and URLs as plain values
    (parsed by `serde_json`, `scraper` and `url`), and text helpers.
  - `mcp`: backend selection, tool inputs and outputs, normalization and
    tool failure messages.
- `app/` — the `kagi-mcp` program: the `reqwest` HTTP client, the `rmcp`
  stdio server, serde and JSON Schema on the tools' wire types.
- `tests/` — tests of the library on concrete values.
