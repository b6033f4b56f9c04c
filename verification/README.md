# nu_plugin_umoka

A bounded in-memory `key -> value` store for Nushell, backed by the
micro-moka cache, with its logic verified by Verus.

- `src/cache.rs`: micro-moka's cache as the proofs see it (a finite map and
  a capacity), and the calls into it.
- `src/value.rs`: the values the store holds.
- `src/store.rs`: the store and its operations, with their contracts.
- `src/commands.rs`: the `umoka` commands: names, texts, errors, and what
  each does to the store once its arguments are read.
- `src/laws.rs`: what holds across calls (a read gives back a write, the
  store stays within its capacity, entries do not expire, increments add
  up, ...).
- `app/`: the plugin executable: argument reading, the lock around the
  store, and conversion to and from Nushell values.
