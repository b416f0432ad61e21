# sync_server

A small file-synchronisation server: users hold access tokens, upload files,
and update them with optimistic concurrency on a content hash.

The crate is split in two.

- `src/` is the library, verified with Verus. It holds every rule the server
  applies: parsing of configured sizes, the bearer-token format and checks,
  username rules, password and token handling, storage keys, and one state
  machine per multi-step request (authentication, account creation, upload,
  update, deletion, token revocation). Each step takes the outcome of the
  last database or storage operation and says what to do next; contracts
  state every transition, and where an outcome rests on chance (the random
  salt of a password hash) they state what holds of every outcome.
- `app/` is the HTTP server around it (axum, sea-orm, local-disk storage). It
  performs the I/O each step asks for and feeds the outcome back.

Hashing is done by the `sha2` and `argon2` crates behind small trusted
wrappers in `src/crypto.rs`; their contracts name what the library relies on.

Layout of `src/`:

| module | contents |
|---|---|
| `text` | character-level helpers: trimming, decimal and hexadecimal text |
| `config` | configuration values, file-size parsing and printing |
| `error` | status codes and error answers |
| `crypto` | SHA-256 and Argon2 wrappers |
| `model` | timestamps and file identifiers |
| `api_types` | request and response bodies |
| `entity` | database rows |
| `auth` | bearer tokens and the authentication machine |
| `users` | username rules, account creation and administration |
| `tokens` | issuing, inspecting and revoking tokens |
| `files` | storage keys, uploads, updates and deletions |
| `discriminators` | per-user listing and registration of synced files |
