# veronex

The request-handling core of an inference gateway for a pool of Ollama
servers (with Gemini and Whisper backends), written in Verus: the functions
in `src/` carry contracts that the verifier proves, except the small
wrappers around outside crates, whose contracts are trusted (see below).

## Layout

- `src/text.rs`, `src/codec.rs`, `src/json.rs` — text helpers (trimming,
  search, character order, sorting), base62 and UUID text, and the JSON value
  the request logic reads and builds.
- `src/domain/` — enums, errors, identifiers, constants, entities, value
  objects, and the key/crypto services (API key generation and hashing,
  AES-256-GCM secrets, password hashing).
- `src/http/` — the HTTP layer: admission checks of the inference endpoints,
  OpenAI / Ollama / Gemini format conversion and replies, streaming state,
  authentication and rate-limit decisions, admin plans (providers, servers,
  keys, accounts, MCP servers), listings and paging, model sync and the
  vision fallback walk.
- `tests/` — tests of the library on concrete values.
- `app/` — runtime glue that stays unverified: conversion to and from
  `serde_json::Value`, serde wire forms of library types, host lookups
  (IP parsing, environment), floating-point dashboard statistics, and drivers
  that run the library's loops against caller-supplied I/O.

Outside crates are reached from `src/` only through small trusted wrappers
whose contracts state what the crate's documentation promises.
