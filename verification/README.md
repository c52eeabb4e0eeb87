# codex_rollout

Rollout persistence policy, verified with Verus: which rollout items are
written to a thread's history, and the copy of each item that is written,
with inline media payloads (`data:` URLs, generated image bytes, media
objects in opaque tool and web search results) removed.

Layout:

- `src/json.rs`: a JSON value model, member lookup, and the compact JSON
  text of a value (used to bound the size of web search results).
- `src/web_search.rs`: the web search item, the `data:` scheme test, the
  media filter for opaque JSON, and the size-bounded history copy of results.
- `src/protocol.rs`, `src/rollout.rs`: the items that persistence reads.
- `src/policy.rs`: the persistence decisions and the media-free copies.
- `src/laws.rs`: properties across these functions: persisting twice changes
  nothing (except where filtering makes web search results grow past their
  1 MiB budget, as the placeholders can be longer than what they replace),
  removing media keeps the persistence decision, and others.
- `src/command_cwd.rs`, `src/notification_media.rs`: the working directory of
  command starts, and tool output fixtures.
- `app/`: serde/ts-rs/schemars copies of the web search types, conversions to
  and from `serde_json`, and path conversion.
