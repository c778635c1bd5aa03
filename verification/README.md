# tokensaver

The Token Saver commands of a terminal client, verified with Verus.

`/tokensaverstats` shows how many tokens the `rtk` program has saved.
`/tokensaver <key>` verifies a portal key with the Token Saver portal and stores it.

- `src/` decides: it parses the commands, keeps the state of the application, says what to run,
  send, store and show next, and masks keys. All of it is verified. The one call out of it, to
  `serde_json`, is in `src/json.rs`.
- `app/` acts: it starts threads and processes, sends the request and writes the file.
- `tests/` runs the library on concrete values.

A key is shown as its mask. `src/redact.rs` proves for which keys a scrubbed text can never hold the
key: those whose mask does not overlap them. For each other key it proves that some text would.
