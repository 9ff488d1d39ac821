# flute-cli-mcp

An MCP (Model Context Protocol) server that lets an AI agent drive the `flute`
payments CLI, with its decision-making proved correct by Verus.

## Layout

- `src/` — the verified library. Every function carries a `requires`/`ensures`
  contract that Verus checks:
  - `config` reads the startup configuration from the environment (profile,
    timeout, binary, pinned merchant id, debug and production-write flags);
  - `server` holds the pinned configuration, the production write guard, the
    merchant-id resolution of the key tools, and how a finished CLI call is
    answered;
  - `tools/*` gives, for each of the CLI's commands, the exact argv it runs
    and whether a write is refused;
  - `tools/mod.rs` builds the flat `{kind, message, …}` error payloads,
    the acknowledgement envelopes and the 4 KiB cut of raw output;
  - `error` classifies a failed call from the CLI's error envelope;
  - `json` and `text` are the JSON value model and the text primitives
    (decimal rendering and parsing, Unicode trimming, ASCII lower-casing).
- `app/` — the binary: reads the environment and the file system, spawns the
  CLI with a timeout, parses its JSON output, and serves the tools over stdio
  with `rmcp`. It only carries the library's plans out.
- `tests/` — tests of the library on concrete values.

## Laws proved in `src/`

- `server::lemma_guard_from_env`: a configured instance refuses writes exactly
  when it is on the production profile and `FLUTE_MCP_ALLOW_PROD_WRITES` is not
  `1`/`true`/`yes`/`on`.
- `server::lemma_refusal_answer`: a refused write is answered with the flat
  `{kind: "client", message}` payload naming the tool.
- `tools::lemma_error_payload_kind`: every error payload starts with a `kind`
  that is one of the eight documented kinds, and is never an envelope.
- `tools::lemma_truncated_4k`: the raw output a `bad_output` error carries
  is a prefix of what the CLI printed, at most 4096 bytes of UTF-8, and all of
  it when it fits.
- `tools::util::lemma_auth_report_keys`: `auth_status` passes on nothing but
  `authenticated`, `profile`, `api_base_url`, `client_id` and `merchant_id`.
- `tools::lemma_flexible_u32_reads_decimal` and
  `text::lemma_parse_decimal_roundtrip`: a number printed in decimal is read
  back as the same number.
