# sniff

A service that reads Google Play app details per release channel (stable,
beta, alpha) and the download links of an app version, merged across several
device ABIs. Its core is a library verified with Verus; a Cloudflare worker
around it does the HTTP.

## Layout

- `src/` — the verified library.
  - `text.rs`, `strmap.rs`: strings, number formatting and parsing, and an
    insertion-ordered string map with unique keys.
  - `form.rs`, `build_config.rs`, `consts.rs`, `error.rs`: form bodies and
    replies of Google's auth endpoint, the store's user agent, defaults, errors.
  - `device.rs`: device profiles and their decoding.
  - `gpapi.rs`: a session and every request it builds (headers, auth
    parameters, query, body).
  - `login.rs`, `download.rs`: the login and download exchanges as state
    machines: the caller sends the request that a step names and hands the
    reply back as an event.
  - `reply.rs`: the store's replies, decoded into those events.
  - `channel.rs`, `client.rs`, `merge.rs`, `registry.rs`, `api.rs`: release
    channels, per-channel clients, merging download info across devices,
    the client registry and how results become API answers.
- `tests/` — tests of the library.
- `app/` — the worker: routing, HTTP, the device database, the async drivers
  of the exchanges, JSON and OpenAPI.
